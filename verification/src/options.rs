//! The widget's persisted options and settings.

use vstd::prelude::*;

verus! {

/// Stored value of the "hide the widget" desktop toggle action.
pub const HIDE_WIDGET_ACTION: u8 = 0;

/// Stored value of the "make the widget transparent" desktop toggle action.
pub const TRANSPARENT_WIDGET_ACTION: u8 = 1;

/// Transparency level used when the user has not chosen one
/// (0 = opaque, 255 = fully transparent).
pub const DEFAULT_TRANSPARENCY_LEVEL: u8 = 64;

/// What a desktop double-click does to the widget.
#[derive(Clone, Copy, Debug, PartialEq, Eq, Structural)]
pub enum DesktopToggleAction {
    Hide,
    Transparent,
}

impl DesktopToggleAction {
    /// The byte under which this action is kept in the listener state.
    pub open spec fn code(self) -> u8 {
        match self {
            DesktopToggleAction::Hide => HIDE_WIDGET_ACTION,
            DesktopToggleAction::Transparent => TRANSPARENT_WIDGET_ACTION,
        }
    }

    /// Encodes the action as the byte kept in the listener state.
    pub fn as_u8(self) -> (code: u8)
        ensures
            code == self.code(),
            self == DesktopToggleAction::Hide <==> code == HIDE_WIDGET_ACTION,
            self == DesktopToggleAction::Transparent <==> code == TRANSPARENT_WIDGET_ACTION,
    {
        match self {
            DesktopToggleAction::Hide => HIDE_WIDGET_ACTION,
            DesktopToggleAction::Transparent => TRANSPARENT_WIDGET_ACTION,
        }
    }
}

impl Default for DesktopToggleAction {
    fn default() -> (action: Self)
        ensures
            action == DesktopToggleAction::Hide,
    {
        DesktopToggleAction::Hide
    }
}

/// Position and size of the main window, in physical pixels.
#[derive(Clone, Copy, Debug, PartialEq, Eq, Structural)]
pub struct WindowBounds {
    pub x: i32,
    pub y: i32,
    pub width: u32,
    pub height: u32,
}

/// The options the user edits in the options window.
#[derive(Clone, Copy, Debug, PartialEq, Eq, Structural)]
pub struct Options {
    pub remember_window_bounds: bool,
    pub open_at_login: bool,
    pub toggle_on_desktop_double_click: bool,
    pub desktop_toggle_action: DesktopToggleAction,
    /// 0 = opaque, 255 = fully transparent.
    pub transparency_level: u8,
}

/// The options a fresh installation starts with.
pub open spec fn default_options() -> Options {
    Options {
        remember_window_bounds: true,
        open_at_login: false,
        toggle_on_desktop_double_click: false,
        desktop_toggle_action: DesktopToggleAction::Hide,
        transparency_level: DEFAULT_TRANSPARENCY_LEVEL,
    }
}

impl Default for Options {
    fn default() -> (options: Self)
        ensures
            options == default_options(),
    {
        Options {
            remember_window_bounds: true,
            open_at_login: false,
            toggle_on_desktop_double_click: false,
            desktop_toggle_action: DesktopToggleAction::default(),
            transparency_level: DEFAULT_TRANSPARENCY_LEVEL,
        }
    }
}

/// Everything kept in the settings file.
#[derive(Clone, Copy, Debug, PartialEq, Eq, Structural)]
pub struct Settings {
    pub options: Options,
    pub window_bounds: Option<WindowBounds>,
}

/// The settings used when no settings file can be read.
pub open spec fn default_settings() -> Settings {
    Settings { options: default_options(), window_bounds: None }
}

impl Default for Settings {
    fn default() -> (settings: Self)
        ensures
            settings == default_settings(),
    {
        Settings { options: Options::default(), window_bounds: None }
    }
}

} // verus!
