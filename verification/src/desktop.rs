//! The desktop double-click listener: recognising clicks on the empty
//! desktop, detecting double-clicks, and dispatching widget toggles.

use vstd::prelude::*;
use crate::state::{DesktopModel, DesktopState, ListenerCounters, bump, bumped};
use crate::widget::{WidgetPlan, perform_main_window_toggle, toggle_outcome};

verus! {

/// How many windows, starting at the one under the pointer and walking up
/// through its parents, are examined to classify a click.
pub const MAX_WINDOW_CHAIN: usize = 8;

/// Separator between the class names of the diagnostic window chain.
pub open spec fn chain_separator() -> Seq<char> {
    " > "@
}

/// Diagnostic target recorded when no window is under the pointer.
pub open spec fn no_window_target() -> Seq<char> {
    "No window at pointer"@
}

/// Window classes of File Explorer windows.
pub open spec fn is_explorer_class(name: Seq<char>) -> bool {
    name == "CabinetWClass"@ || name == "ExploreWClass"@
}

/// Window classes that make up the desktop surface.
pub open spec fn is_desktop_class(name: Seq<char>) -> bool {
    name == "Progman"@ || name == "WorkerW"@ || name == "SHELLDLL_DefView"@ || name
        == "SysListView32"@
}

/// The desktop's program-manager window class.
pub open spec fn is_progman_class(name: Seq<char>) -> bool {
    name == "Progman"@
}

pub open spec fn chain_has_explorer(names: Seq<Seq<char>>) -> bool {
    exists|i: int| 0 <= i < names.len() && is_explorer_class(#[trigger] names[i])
}

pub open spec fn chain_has_desktop(names: Seq<Seq<char>>) -> bool {
    exists|i: int| 0 <= i < names.len() && is_desktop_class(#[trigger] names[i])
}

pub open spec fn chain_has_progman(names: Seq<Seq<char>>) -> bool {
    exists|i: int| 0 <= i < names.len() && is_progman_class(#[trigger] names[i])
}

/// `parts` joined with `sep` between neighbours.
pub open spec fn joined(parts: Seq<Seq<char>>, sep: Seq<char>) -> Seq<char>
    decreases parts.len(),
{
    if parts.len() == 0 {
        seq![]
    } else if parts.len() == 1 {
        parts[0]
    } else {
        joined(parts.drop_last(), sep) + sep + parts.last()
    }
}

/// The character sequences of a list of strings.
pub open spec fn names_of(classes: Seq<String>) -> Seq<Seq<char>> {
    classes.map_values(|c: String| c@)
}

/// What the window chain under the pointer says about a click.
#[derive(Debug)]
pub struct WindowDetails {
    /// The click landed on the desktop itself (not in a File Explorer window).
    pub is_desktop_surface: bool,
    /// The class names of the chain, for diagnostics.
    pub target: String,
    /// The chain contains the desktop's program-manager window.
    pub is_progman_window: bool,
}

/// The class names a classification examines: those of the first
/// `MAX_WINDOW_CHAIN` windows of the chain.
pub open spec fn examined_names(classes: Seq<String>) -> Seq<Seq<char>> {
    let names = names_of(classes);
    if names.len() <= MAX_WINDOW_CHAIN {
        names
    } else {
        names.take(MAX_WINDOW_CHAIN as int)
    }
}

/// Whether a click on the window chain `classes` is on the desktop surface:
/// an examined window is a desktop window and none is a File Explorer window.
pub open spec fn chain_is_desktop_surface(classes: Seq<String>) -> bool {
    chain_has_desktop(examined_names(classes)) && !chain_has_explorer(examined_names(classes))
}

/// Whether an examined window of the chain is the program-manager window.
pub open spec fn chain_reaches_progman(classes: Seq<String>) -> bool {
    chain_has_progman(examined_names(classes))
}

/// The diagnostic text for the chain: its examined class names joined.
pub open spec fn chain_target(classes: Seq<String>) -> Seq<char> {
    joined(examined_names(classes), chain_separator())
}

/// Classifies a click from the class names of the window under the pointer
/// and its ancestors (`None` when there is no window there). Only the first
/// `MAX_WINDOW_CHAIN` windows of the chain are examined. The click is on the
/// desktop surface when one of them is a desktop window and none is a File
/// Explorer window.
///
/// Class names alone cannot tell a desktop icon from empty desktop space: see
/// `desktop_click_hits_icon`.
pub fn desktop_window_details(classes: Option<Vec<String>>) -> (details: WindowDetails)
    ensures
        match classes {
            None => {
                &&& !details.is_desktop_surface
                &&& details.target@ == no_window_target()
                &&& !details.is_progman_window
            },
            Some(chain) => {
                &&& details.is_progman_window == chain_reaches_progman(chain@)
                &&& details.is_desktop_surface == chain_is_desktop_surface(chain@)
                &&& details.target@ == chain_target(chain@)
            },
        },
{
    let chain = match classes {
        None => {
            return WindowDetails {
                is_desktop_surface: false,
                target: String::from_str("No window at pointer"),
                is_progman_window: false,
            };
        },
        Some(chain) => chain,
    };
    let ghost names = names_of(chain@);
    let cabinet = String::from_str("CabinetWClass");
    let explore = String::from_str("ExploreWClass");
    let progman = String::from_str("Progman");
    let worker = String::from_str("WorkerW");
    let defview = String::from_str("SHELLDLL_DefView");
    let listview = String::from_str("SysListView32");
    let mut is_file_explorer_window = false;
    let mut is_desktop_surface = false;
    let mut is_progman_window = false;
    let mut target = String::new();
    let mut i: usize = 0;
    while i < chain.len() && i < MAX_WINDOW_CHAIN
        invariant
            i <= chain.len(),
            i <= MAX_WINDOW_CHAIN,
            names == names_of(chain@),
            names.len() == chain@.len(),
            cabinet@ == "CabinetWClass"@,
            explore@ == "ExploreWClass"@,
            progman@ == "Progman"@,
            worker@ == "WorkerW"@,
            defview@ == "SHELLDLL_DefView"@,
            listview@ == "SysListView32"@,
            is_file_explorer_window == chain_has_explorer(names.take(i as int)),
            is_desktop_surface == chain_has_desktop(names.take(i as int)),
            is_progman_window == chain_has_progman(names.take(i as int)),
            target@ == joined(names.take(i as int), chain_separator()),
        decreases chain.len() - i,
    {
        assert(i < chain.len());
        let name = &chain[i];
        assert(names[i as int] == name@);
        let ghost prefix = names.take(i as int);
        let ghost next = names.take(i + 1);
        assert(next.drop_last() =~= prefix);
        assert(next.last() == name@);
        assert(forall|k: int| 0 <= k < i ==> next[k] == #[trigger] prefix[k]);
        if *name == cabinet || *name == explore {
            is_file_explorer_window = true;
        }
        if *name == progman || *name == worker || *name == defview || *name == listview {
            is_desktop_surface = true;
        }
        if *name == progman {
            is_progman_window = true;
        }
        assert(is_file_explorer_window == chain_has_explorer(next)) by {
            if is_explorer_class(name@) {
                assert(is_explorer_class(next[i as int]));
            }
        }
        assert(is_desktop_surface == chain_has_desktop(next)) by {
            if is_desktop_class(name@) {
                assert(is_desktop_class(next[i as int]));
            }
        }
        assert(is_progman_window == chain_has_progman(next)) by {
            if is_progman_class(name@) {
                assert(is_progman_class(next[i as int]));
            }
        }
        if i > 0 {
            target.append(" > ");
        }
        target.append(name.as_str());
        assert(target@ == joined(next, chain_separator())) by {
            if i == 0 {
                assert(prefix =~= seq![]);
                assert(next =~= seq![name@]);
            }
        }
        i = i + 1;
    }
    assert(names.take(i as int) =~= examined_names(chain@));
    WindowDetails {
        is_desktop_surface: is_desktop_surface && !is_file_explorer_window,
        target,
        is_progman_window,
    }
}

/// What a hit test against the desktop's icon list reported, or where it
/// gave up.
#[derive(Clone, Copy, Debug, PartialEq, Eq, Structural)]
pub enum IconProbe {
    /// The screen point could not be mapped into the list's client area.
    PointNotMapped,
    /// The process owning the list could not be determined.
    NoOwningProcess,
    /// The owning process could not be opened.
    ProcessNotOpened,
    /// No buffer could be allocated in the owning process.
    BufferNotAllocated,
    /// The request could not be written into the owning process.
    WriteFailed,
    /// The answer could not be read back from the owning process.
    ReadFailed,
    /// The list answered with this item index (negative: no item).
    ItemIndex(i32),
}

/// Whether a desktop click landed on an icon rather than on empty desktop
/// space. A probe that could not complete counts as "not an icon".
pub fn desktop_click_hits_icon(probe: IconProbe) -> (hit: bool)
    ensures
        hit == (probe matches IconProbe::ItemIndex(item) && item >= 0),
{
    match probe {
        IconProbe::ItemIndex(item) => item >= 0,
        _ => false,
    }
}

/// A mouse message seen by the low-level mouse hook.
#[derive(Clone, Copy, Debug, PartialEq, Eq, Structural)]
pub enum HookMessage {
    LeftButtonDown,
    LeftButtonDoubleClick,
    /// Any other message, or a hook call that is not an action.
    Other,
}

impl HookMessage {
    /// Whether the hook examines this message at all.
    pub fn is_left_button(&self) -> (examined: bool)
        ensures
            examined == !(*self is Other),
    {
        !matches!(self, HookMessage::Other)
    }
}

/// Everything the mouse hook learned about one mouse message.
#[derive(Debug)]
pub struct MouseHookEvent {
    pub message: HookMessage,
    /// Classification of the window chain under the pointer.
    pub details: WindowDetails,
    /// Result of `desktop_click_hits_icon`; only consulted for clicks on the
    /// desktop surface.
    pub icon_hit: bool,
    /// System tick count (milliseconds) when the message was handled.
    pub tick: u32,
    /// The system's double-click time in milliseconds.
    pub double_click_time: u32,
    /// The listener knows the application to toggle.
    pub has_app: bool,
}

/// Milliseconds from tick `earlier` to tick `later` on the wrapping tick clock.
pub open spec fn ticks_between(earlier: u32, later: u32) -> int {
    if later >= earlier {
        later - earlier
    } else {
        later - earlier + 0x1_0000_0000
    }
}

/// Whether a click at `tick` completes a double-click with the pending one.
pub open spec fn completes_double_click(pending: Option<u32>, tick: u32, double_click_time: u32) -> bool {
    match pending {
        Some(previous) => ticks_between(previous, tick) <= double_click_time,
        None => false,
    }
}

/// Message recorded when there is no application to toggle.
pub open spec fn no_app_message() -> Seq<char> {
    "Desktop listener has no application handle"@
}

/// Outcome of `toggle_main_window`: the state and whether a toggle must be
/// scheduled on the UI thread.
pub open spec fn dispatch_outcome(s: DesktopModel, has_app: bool) -> (DesktopModel, bool) {
    if has_app {
        (
            DesktopModel {
                counters: ListenerCounters {
                    toggle_dispatch: bumped(s.counters.toggle_dispatch),
                    ..s.counters
                },
                ..s
            },
            true,
        )
    } else {
        (DesktopModel { last_toggle_result: Some(no_app_message()), ..s }, false)
    }
}

/// Records the class-name chain under the pointer at the last click.
pub fn update_desktop_listener_target(state: &mut DesktopState, target: String)
    ensures
        final(state)@ == (DesktopModel { last_target: Some(target@), ..old(state)@ }),
{
    state.last_target = Some(target);
}

/// Records the outcome of the last toggle attempt.
pub fn update_desktop_toggle_result(state: &mut DesktopState, result: String)
    ensures
        final(state)@ == (DesktopModel { last_toggle_result: Some(result@), ..old(state)@ }),
{
    state.last_toggle_result = Some(result);
}

/// Asks for a widget toggle: when the listener knows the application the
/// toggle is to be scheduled on the UI thread (`true`); otherwise the failure
/// is recorded.
pub fn toggle_main_window(state: &mut DesktopState, has_app: bool) -> (schedule: bool)
    ensures
        (final(state)@, schedule) == dispatch_outcome(old(state)@, has_app),
{
    if has_app {
        state.counters.toggle_dispatch = bump(state.counters.toggle_dispatch);
        true
    } else {
        update_desktop_toggle_result(
            state,
            String::from_str("Desktop listener has no application handle"),
        );
        false
    }
}

/// State after a double-click has been counted.
pub open spec fn with_double_click_counted(s: DesktopModel) -> DesktopModel {
    DesktopModel {
        counters: ListenerCounters { double_click: bumped(s.counters.double_click), ..s.counters },
        ..s
    }
}

/// State after the hook has recorded a left-button message: counters and
/// diagnostic target, before any double-click decision.
pub open spec fn hook_recorded(s: DesktopModel, event: MouseHookEvent) -> DesktopModel {
    let surface = event.details.is_desktop_surface;
    let icon = surface && event.icon_hit;
    DesktopModel {
        counters: ListenerCounters {
            mouse_down: if event.message is LeftButtonDown {
                bumped(s.counters.mouse_down)
            } else {
                s.counters.mouse_down
            },
            desktop_surface_click: if surface {
                bumped(s.counters.desktop_surface_click)
            } else {
                s.counters.desktop_surface_click
            },
            icon_click_ignored: if icon {
                bumped(s.counters.icon_click_ignored)
            } else {
                s.counters.icon_click_ignored
            },
            ..s.counters
        },
        last_target: Some(event.details.target@),
        ..s
    }
}

/// Whether a click may take part in a double-click: the listener is on and
/// the click landed on empty desktop space.
pub open spec fn click_is_eligible(s: DesktopModel, event: MouseHookEvent) -> bool {
    s.double_click_enabled && event.details.is_desktop_surface && !event.icon_hit
}

/// Outcome of `desktop_mouse_hook`: the state and whether a toggle must be
/// scheduled on the UI thread.
pub open spec fn hook_outcome(s: DesktopModel, event: MouseHookEvent) -> (DesktopModel, bool) {
    if event.message is Other {
        (s, false)
    } else {
        let r = hook_recorded(s, event);
        if click_is_eligible(r, event) && event.message is LeftButtonDoubleClick
            && event.details.is_progman_window {
            dispatch_outcome(with_double_click_counted(r), event.has_app)
        } else if click_is_eligible(r, event) {
            if completes_double_click(r.pending_click, event.tick, event.double_click_time) {
                dispatch_outcome(
                    with_double_click_counted(DesktopModel { pending_click: None, ..r }),
                    event.has_app,
                )
            } else {
                (DesktopModel { pending_click: Some(event.tick), ..r }, false)
            }
        } else {
            (DesktopModel { pending_click: None, ..r }, false)
        }
    }
}

/// Handles one mouse message of the low-level hook: counts it, records the
/// window chain under the pointer, and decides whether it completes a
/// double-click on empty desktop space, in which case a widget toggle is
/// dispatched (`true`: schedule it on the UI thread).
///
/// A double-click is either a double-click message on the desktop's
/// program-manager window or two clicks on the desktop surface no further
/// apart than the double-click time. Clicks on icons, clicks elsewhere and
/// clicks while the listener is off never toggle and cancel a pending click.
pub fn desktop_mouse_hook(state: &mut DesktopState, event: MouseHookEvent) -> (schedule: bool)
    ensures
        (final(state)@, schedule) == hook_outcome(old(state)@, event),
{
    let ghost e = event;
    let is_double_click_message = match event.message {
        HookMessage::LeftButtonDown => false,
        HookMessage::LeftButtonDoubleClick => true,
        HookMessage::Other => {
            return false;
        },
    };
    if !is_double_click_message {
        state.counters.mouse_down = bump(state.counters.mouse_down);
    }
    let is_desktop_surface = event.details.is_desktop_surface;
    let is_progman_window = event.details.is_progman_window;
    update_desktop_listener_target(state, event.details.target);
    if is_desktop_surface {
        state.counters.desktop_surface_click = bump(state.counters.desktop_surface_click);
    }
    let clicked_on_icon = is_desktop_surface && event.icon_hit;
    if clicked_on_icon {
        state.counters.icon_click_ignored = bump(state.counters.icon_click_ignored);
    }
    assert(state@ == hook_recorded(old(state)@, e));
    let eligible = state.double_click_enabled && is_desktop_surface && !clicked_on_icon;
    if eligible && is_double_click_message && is_progman_window {
        state.counters.double_click = bump(state.counters.double_click);
        toggle_main_window(state, event.has_app)
    } else if eligible {
        let is_double_click = match state.pending_click {
            Some(previous) => event.tick.wrapping_sub(previous) <= event.double_click_time,
            None => false,
        };
        state.pending_click = None;
        if is_double_click {
            state.counters.double_click = bump(state.counters.double_click);
            toggle_main_window(state, event.has_app)
        } else {
            state.pending_click = Some(event.tick);
            false
        }
    } else {
        state.pending_click = None;
        false
    }
}

/// Message recorded when the UI-thread toggle could not be scheduled.
pub open spec fn schedule_failure_message(error: Seq<char>) -> Seq<char> {
    "Could not schedule UI-thread toggle: "@ + error
}

/// Records that the UI-thread toggle could not be scheduled.
pub fn toggle_schedule_failed(state: &mut DesktopState, error: String)
    ensures
        final(state)@ == (DesktopModel {
            last_toggle_result: Some(schedule_failure_message(error@)),
            ..old(state)@
        }),
{
    let message = String::from_str("Could not schedule UI-thread toggle: ").concat(error.as_str());
    update_desktop_toggle_result(state, message);
}

/// State after a toggle has started on the UI thread.
pub open spec fn with_ui_toggle_counted(s: DesktopModel) -> DesktopModel {
    DesktopModel {
        counters: ListenerCounters {
            toggle_ui_thread: bumped(s.counters.toggle_ui_thread),
            ..s.counters
        },
        ..s
    }
}

/// Runs a dispatched toggle on the UI thread: counts it and performs it
/// (see `perform_main_window_toggle`).
pub fn begin_ui_thread_toggle(
    state: &mut DesktopState,
    window_found: bool,
    visible: Result<bool, String>,
    transparency_level: u8,
) -> (plan: WidgetPlan)
    ensures
        (final(state)@, plan.commands@, plan.status@) == toggle_outcome(
            with_ui_toggle_counted(old(state)@),
            window_found,
            visible,
            transparency_level,
        ),
{
    state.counters.toggle_ui_thread = bump(state.counters.toggle_ui_thread);
    perform_main_window_toggle(state, window_found, visible, transparency_level)
}

/// Message recorded for the outcome of a toggle dispatched by the listener.
pub open spec fn ui_toggle_message(result: Result<(), String>) -> Seq<char> {
    match result {
        Ok(_) => "Toggle completed"@,
        Err(e) => "Toggle failed: "@ + e@,
    }
}

/// Records the outcome of a toggle dispatched by the listener.
pub fn record_ui_toggle_result(state: &mut DesktopState, result: Result<(), String>)
    ensures
        final(state)@ == (DesktopModel {
            last_toggle_result: Some(ui_toggle_message(result)),
            ..old(state)@
        }),
{
    let message = match result {
        Ok(()) => String::from_str("Toggle completed"),
        Err(e) => String::from_str("Toggle failed: ").concat(e.as_str()),
    };
    update_desktop_toggle_result(state, message);
}

/// Message recorded for the outcome of the options window's test toggle.
pub open spec fn test_toggle_message(result: Result<(), String>) -> Seq<char> {
    match result {
        Ok(_) => "Toggle completed by Options test button"@,
        Err(e) => "Options test failed: "@ + e@,
    }
}

/// Records the outcome of the options window's test toggle and hands it on.
pub fn finish_test_desktop_toggle(state: &mut DesktopState, result: Result<(), String>) -> (outcome:
    Result<(), String>)
    ensures
        outcome == result,
        final(state)@ == (DesktopModel {
            last_toggle_result: Some(test_toggle_message(result)),
            ..old(state)@
        }),
{
    let message = match &result {
        Ok(()) => String::from_str("Toggle completed by Options test button"),
        Err(e) => String::from_str("Options test failed: ").concat(e.as_str()),
    };
    update_desktop_toggle_result(state, message);
    result
}

/// Snapshot of the listener's diagnostics for the options window.
#[derive(Debug)]
pub struct DesktopListenerDebug {
    pub hook_installed: bool,
    pub listener_enabled: bool,
    pub mouse_down_count: usize,
    pub desktop_surface_click_count: usize,
    pub double_click_count: usize,
    pub toggle_dispatch_count: usize,
    pub toggle_ui_thread_count: usize,
    pub main_window_found_count: usize,
    pub toggle_count: usize,
    pub icon_click_ignored_count: usize,
    pub last_target: String,
    pub last_toggle_result: String,
}

/// `text`, or `fallback` when there is none.
pub open spec fn text_or(text: Option<Seq<char>>, fallback: Seq<char>) -> Seq<char> {
    match text {
        Some(t) => t,
        None => fallback,
    }
}

fn clone_or(text: &Option<String>, fallback: &str) -> (out: String)
    ensures
        out@ == text_or(crate::state::text_of(*text), fallback@),
{
    match text {
        Some(t) => t.clone(),
        None => String::from_str(fallback),
    }
}

/// Takes a snapshot of the listener's diagnostics.
pub fn get_desktop_listener_debug(state: &DesktopState) -> (debug: DesktopListenerDebug)
    ensures
        debug.hook_installed == state.hook_installed,
        debug.listener_enabled == state.double_click_enabled,
        debug.mouse_down_count == state.counters.mouse_down,
        debug.desktop_surface_click_count == state.counters.desktop_surface_click,
        debug.double_click_count == state.counters.double_click,
        debug.toggle_dispatch_count == state.counters.toggle_dispatch,
        debug.toggle_ui_thread_count == state.counters.toggle_ui_thread,
        debug.main_window_found_count == state.counters.main_window_found,
        debug.toggle_count == state.counters.toggle,
        debug.icon_click_ignored_count == state.counters.icon_click_ignored,
        debug.last_target@ == text_or(state@.last_target, "No mouse-down event captured yet"@),
        debug.last_toggle_result@ == text_or(state@.last_toggle_result, "No toggle attempted yet"@),
{
    DesktopListenerDebug {
        hook_installed: state.hook_installed,
        listener_enabled: state.double_click_enabled,
        mouse_down_count: state.counters.mouse_down,
        desktop_surface_click_count: state.counters.desktop_surface_click,
        double_click_count: state.counters.double_click,
        toggle_dispatch_count: state.counters.toggle_dispatch,
        toggle_ui_thread_count: state.counters.toggle_ui_thread,
        main_window_found_count: state.counters.main_window_found,
        toggle_count: state.counters.toggle,
        icon_click_ignored_count: state.counters.icon_click_ignored,
        last_target: clone_or(&state.last_target, "No mouse-down event captured yet"),
        last_toggle_result: clone_or(&state.last_toggle_result, "No toggle attempted yet"),
    }
}

} // verus!
