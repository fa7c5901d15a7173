//! The rules behind the widget's commands: reading and editing the options,
//! resetting them, and what happens to the settings at start-up and when
//! the main window closes.

use vstd::prelude::*;
use crate::options::{
    DesktopToggleAction, HIDE_WIDGET_ACTION, Options, Settings, WindowBounds, default_options,
};
use crate::state::{DesktopModel, DesktopState, bump, bumped};

verus! {

/// The options shown for `settings` when the autostart registration reads
/// `autostart_enabled`.
pub open spec fn read_options(settings: Settings, autostart_enabled: Option<bool>) -> Options {
    Options {
        open_at_login: match autostart_enabled {
            Some(enabled) => enabled,
            None => false,
        },
        ..settings.options
    }
}

/// The options as the options window shows them: the stored options, except
/// that "open at login" reflects whether autostart is actually registered
/// (`None`: the registration could not be read, shown as off).
pub fn get_options(settings: Settings, autostart_enabled: Option<bool>) -> (options: Options)
    ensures
        options == read_options(settings, autostart_enabled),
{
    let mut options = settings.options;
    options.open_at_login = match autostart_enabled {
        Some(enabled) => enabled,
        None => false,
    };
    options
}

/// What an options command leaves for the caller to do.
#[derive(Clone, Copy, Debug, PartialEq, Eq, Structural)]
pub struct SavedOptions {
    /// The settings to write to the settings file.
    pub settings: Settings,
    /// Register (`true`) or unregister (`false`) the autostart entry.
    pub autostart: Option<bool>,
    /// How many times to restore the widget in a row (see
    /// `restore_main_window`); a restore that failed may succeed when tried
    /// again.
    pub restores: u8,
    /// The transparency level the restores use: the one stored before the
    /// command.
    pub restore_level: u8,
}

/// `value` if given, else `current`.
pub open spec fn given_or<T>(value: Option<T>, current: T) -> T {
    match value {
        Some(v) => v,
        None => current,
    }
}

/// The settings after `save_options`.
pub open spec fn edited_settings(
    settings: Settings,
    remember_window_bounds: Option<bool>,
    open_at_login: Option<bool>,
    toggle_on_desktop_double_click: Option<bool>,
    desktop_toggle_action: Option<DesktopToggleAction>,
    transparency_level: Option<u8>,
) -> Settings {
    let o = settings.options;
    Settings {
        options: Options {
            remember_window_bounds: given_or(remember_window_bounds, o.remember_window_bounds),
            open_at_login: given_or(open_at_login, o.open_at_login),
            toggle_on_desktop_double_click: given_or(
                toggle_on_desktop_double_click,
                o.toggle_on_desktop_double_click,
            ),
            desktop_toggle_action: given_or(desktop_toggle_action, o.desktop_toggle_action),
            transparency_level: given_or(transparency_level, o.transparency_level),
        },
        window_bounds: if remember_window_bounds == Some(false) {
            None
        } else {
            settings.window_bounds
        },
    }
}

/// The listener state after `save_options`.
pub open spec fn edited_listener(
    s: DesktopModel,
    toggle_on_desktop_double_click: Option<bool>,
    desktop_toggle_action: Option<DesktopToggleAction>,
) -> DesktopModel {
    DesktopModel {
        double_click_enabled: given_or(toggle_on_desktop_double_click, s.double_click_enabled),
        toggle_action: match desktop_toggle_action {
            Some(action) => action.code(),
            None => s.toggle_action,
        },
        ..s
    }
}

/// How often `save_options` brings the widget back: once when the desktop
/// toggle is switched off, and once when its action is set to hiding.
pub open spec fn edit_restores(
    toggle_on_desktop_double_click: Option<bool>,
    desktop_toggle_action: Option<DesktopToggleAction>,
) -> u8 {
    ((if toggle_on_desktop_double_click == Some(false) {
        1int
    } else {
        0int
    }) + (if desktop_toggle_action == Some(DesktopToggleAction::Hide) {
        1int
    } else {
        0int
    })) as u8
}

/// Applies the edits of the options window to the loaded settings: each given
/// option replaces the stored one, and turning "remember window bounds" off
/// forgets the stored bounds. The desktop listener takes the new toggle
/// settings at once.
pub fn save_options(
    state: &mut DesktopState,
    settings: Settings,
    remember_window_bounds: Option<bool>,
    open_at_login: Option<bool>,
    toggle_on_desktop_double_click: Option<bool>,
    desktop_toggle_action: Option<DesktopToggleAction>,
    transparency_level: Option<u8>,
) -> (saved: SavedOptions)
    ensures
        saved.settings == edited_settings(
            settings,
            remember_window_bounds,
            open_at_login,
            toggle_on_desktop_double_click,
            desktop_toggle_action,
            transparency_level,
        ),
        saved.autostart == open_at_login,
        saved.restores == edit_restores(toggle_on_desktop_double_click, desktop_toggle_action),
        saved.restore_level == settings.options.transparency_level,
        final(state)@ == edited_listener(
            old(state)@,
            toggle_on_desktop_double_click,
            desktop_toggle_action,
        ),
{
    let mut edited = settings;
    let mut restores: u8 = 0;
    if let Some(v) = remember_window_bounds {
        edited.options.remember_window_bounds = v;
        if !v {
            edited.window_bounds = None;
        }
    }
    if let Some(v) = open_at_login {
        edited.options.open_at_login = v;
    }
    if let Some(v) = toggle_on_desktop_double_click {
        edited.options.toggle_on_desktop_double_click = v;
        state.double_click_enabled = v;
        if !v {
            restores = restores + 1;
        }
    }
    if let Some(v) = desktop_toggle_action {
        edited.options.desktop_toggle_action = v;
        state.toggle_action = v.as_u8();
        if v == DesktopToggleAction::Hide {
            restores = restores + 1;
        }
    }
    if let Some(v) = transparency_level {
        edited.options.transparency_level = v;
    }
    SavedOptions {
        settings: edited,
        autostart: open_at_login,
        restores,
        restore_level: settings.options.transparency_level,
    }
}

/// Sets a new transparency level in the loaded settings.
pub fn update_transparency_level(settings: Settings, transparency_level: u8) -> (updated: Settings)
    ensures
        updated == (Settings {
            options: Options { transparency_level, ..settings.options },
            ..settings
        }),
{
    let mut updated = settings;
    updated.options.transparency_level = transparency_level;
    updated
}

/// Puts every option back to its default (the stored window bounds stay),
/// switches the desktop toggle off, unregisters autostart and restores the
/// widget.
pub fn reset_options(state: &mut DesktopState, settings: Settings) -> (saved: SavedOptions)
    ensures
        saved.settings == (Settings { options: default_options(), ..settings }),
        saved.autostart == Some(false),
        saved.restores == 1,
        saved.restore_level == settings.options.transparency_level,
        final(state)@ == (DesktopModel {
            double_click_enabled: false,
            toggle_action: HIDE_WIDGET_ACTION,
            ..old(state)@
        }),
{
    state.double_click_enabled = false;
    state.toggle_action = HIDE_WIDGET_ACTION;
    SavedOptions {
        settings: Settings { options: Options::default(), window_bounds: settings.window_bounds },
        autostart: Some(false),
        restores: 1,
        restore_level: settings.options.transparency_level,
    }
}

/// Hands the stored desktop-toggle options to the listener at start-up.
pub fn apply_startup_settings(state: &mut DesktopState, settings: &Settings)
    ensures
        final(state)@ == (DesktopModel {
            double_click_enabled: settings.options.toggle_on_desktop_double_click,
            toggle_action: settings.options.desktop_toggle_action.code(),
            ..old(state)@
        }),
{
    state.double_click_enabled = settings.options.toggle_on_desktop_double_click;
    state.toggle_action = settings.options.desktop_toggle_action.as_u8();
}

/// Title of the main window.
pub open spec fn main_window_title_text(is_debug_build: bool) -> Seq<char> {
    if is_debug_build {
        "What-N-When (DEV BUILD)"@
    } else {
        "What-N-When"@
    }
}

/// Title of the main window; development builds say so.
pub fn main_window_title(is_debug_build: bool) -> (title: String)
    ensures
        title@ == main_window_title_text(is_debug_build),
{
    if is_debug_build {
        String::from_str("What-N-When (DEV BUILD)")
    } else {
        String::from_str("What-N-When")
    }
}

/// The bounds the main window gets at start-up, if any.
pub open spec fn bounds_to_restore(settings: Settings) -> Option<WindowBounds> {
    if settings.options.remember_window_bounds {
        settings.window_bounds
    } else {
        None
    }
}

/// The bounds to give the main window at start-up, if any.
pub fn window_bounds_to_restore(settings: &Settings) -> (bounds: Option<WindowBounds>)
    ensures
        bounds == bounds_to_restore(*settings),
{
    if settings.options.remember_window_bounds {
        settings.window_bounds
    } else {
        None
    }
}

/// The settings written when the main window closes at `position` with
/// `size` (`None` for what the window could not report).
pub open spec fn recorded_bounds(
    settings: Settings,
    position: Option<(i32, i32)>,
    size: Option<(u32, u32)>,
) -> Option<Settings> {
    match (position, size) {
        (Some((x, y)), Some((width, height))) => if settings.options.remember_window_bounds {
            Some(Settings { window_bounds: Some(WindowBounds { x, y, width, height }), ..settings })
        } else {
            None
        },
        _ => None,
    }
}

/// The settings to write when the main window closes: the window's outer
/// position and inner size are remembered when the options ask for it and
/// the window could report both (`None`: nothing to write).
pub fn record_window_bounds(
    settings: Settings,
    position: Option<(i32, i32)>,
    size: Option<(u32, u32)>,
) -> (recorded: Option<Settings>)
    ensures
        recorded == recorded_bounds(settings, position, size),
{
    if !settings.options.remember_window_bounds {
        return None;
    }
    match (position, size) {
        (Some((x, y)), Some((width, height))) => Some(
            Settings { window_bounds: Some(WindowBounds { x, y, width, height }), ..settings },
        ),
        _ => None,
    }
}

/// A registry value to delete.
#[derive(Debug)]
pub struct RegistryValue {
    /// Key under the current user's hive, opened with permission to set values.
    pub key_path: String,
    pub value_name: String,
}

/// Key under which per-user autostart entries are kept.
pub open spec fn run_key_path() -> Seq<char> {
    "SOFTWARE\\Microsoft\\Windows\\CurrentVersion\\Run"@
}

/// Name of the autostart entry left behind by the former Electron build.
pub open spec fn legacy_autostart_name() -> Seq<char> {
    "ca.willryan.notioncalendarwidget"@
}

/// The autostart entry of the former Electron build, which is removed at
/// start-up (a missing key or value is not an error).
pub fn remove_legacy_electron_autostart() -> (entry: RegistryValue)
    ensures
        entry.key_path@ == run_key_path(),
        entry.value_name@ == legacy_autostart_name(),
{
    RegistryValue {
        key_path: String::from_str("SOFTWARE\\Microsoft\\Windows\\CurrentVersion\\Run"),
        value_name: String::from_str("ca.willryan.notioncalendarwidget"),
    }
}

/// The decimal digits, in order.
pub open spec fn digit_chars() -> Seq<char> {
    "0123456789"@
}

/// Decimal notation of `n`, without leading zeros.
pub open spec fn decimal(n: nat) -> Seq<char>
    decreases n,
{
    if n < 10 {
        seq![digit_chars()[n as int]]
    } else {
        decimal(n / 10).push(digit_chars()[(n % 10) as int])
    }
}

/// Appends the decimal notation of `n` to `text`.
fn append_decimal(text: &mut String, n: usize)
    ensures
        final(text)@ == old(text)@ + decimal(n as nat),
    decreases n,
{
    let digits = "0123456789";
    proof {
        reveal_strlit("0123456789");
    }
    if n >= 10 {
        append_decimal(text, n / 10);
    }
    let d = n % 10;
    let digit = digits.substring_char(d, d + 1);
    assert(digit@ =~= seq![digits@[d as int]]);
    text.append(digit);
    assert(final(text)@ =~= old(text)@ + decimal(n as nat));
}

/// Label of the popup window with number `id`.
pub open spec fn popup_label(id: usize) -> Seq<char> {
    "notion-calendar-popup-"@ + decimal(id as nat)
}

/// Label for the next popup window that the calendar opens (for signing in);
/// each popup gets the next number.
pub fn next_popup_window_label(state: &mut DesktopState) -> (label: String)
    ensures
        label@ == popup_label(old(state).popup_window_id),
        final(state)@ == (DesktopModel {
            popup_window_id: bumped(old(state).popup_window_id),
            ..old(state)@
        }),
{
    let id = state.popup_window_id;
    state.popup_window_id = bump(id);
    let mut label = String::from_str("notion-calendar-popup-");
    append_decimal(&mut label, id);
    label
}

} // verus!
