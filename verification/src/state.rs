//! The process-wide state shared by the desktop listener and the widget window.

use vstd::prelude::*;
use crate::options::HIDE_WIDGET_ACTION;

verus! {

/// One step of an event counter; counters wrap around like the atomic
/// counters they model.
pub open spec fn bumped(count: usize) -> usize {
    if count == usize::MAX { 0 } else { (count + 1) as usize }
}

/// Advances an event counter by one, wrapping around at `usize::MAX`.
pub fn bump(count: usize) -> (next: usize)
    ensures
        next == bumped(count),
{
    count.wrapping_add(1)
}

/// Diagnostic event counters of the desktop double-click listener.
#[derive(Clone, Copy, Debug, PartialEq, Eq, Structural)]
pub struct ListenerCounters {
    /// Left-button presses (not double-click messages) seen by the hook.
    pub mouse_down: usize,
    /// Clicks that landed on the desktop surface.
    pub desktop_surface_click: usize,
    /// Double-clicks on the desktop that asked for a toggle.
    pub double_click: usize,
    /// Toggles handed to the UI thread.
    pub toggle_dispatch: usize,
    /// Toggles that started running on the UI thread.
    pub toggle_ui_thread: usize,
    /// Toggles that found the main window.
    pub main_window_found: usize,
    /// Toggles that completed.
    pub toggle: usize,
    /// Desktop clicks ignored because they hit a desktop icon.
    pub icon_click_ignored: usize,
}

/// All counters at zero.
pub open spec fn zero_counters() -> ListenerCounters {
    ListenerCounters {
        mouse_down: 0,
        desktop_surface_click: 0,
        double_click: 0,
        toggle_dispatch: 0,
        toggle_ui_thread: 0,
        main_window_found: 0,
        toggle: 0,
        icon_click_ignored: 0,
    }
}

/// The state of the desktop listener and of the main widget window.
pub struct DesktopState {
    /// Whether a desktop double-click toggles the widget.
    pub double_click_enabled: bool,
    /// The toggle action, as `DesktopToggleAction::as_u8` encodes it.
    pub toggle_action: u8,
    /// The widget is currently faded to its transparency level.
    pub widget_is_transparent: bool,
    /// A fade-out that ends by hiding the widget is under way.
    pub widget_is_hiding: bool,
    /// Generation of the most recently started fade; older fades stop.
    pub fade_generation: usize,
    /// Number used in the label of the next sign-in popup window.
    pub popup_window_id: usize,
    /// The low-level mouse hook has been installed.
    pub hook_installed: bool,
    /// Tick of a desktop click that may become the first half of a double-click.
    pub pending_click: Option<u32>,
    pub counters: ListenerCounters,
    /// Class-name chain under the pointer at the last click.
    pub last_target: Option<String>,
    /// Outcome of the last toggle attempt.
    pub last_toggle_result: Option<String>,
}

/// The mathematical value of a `DesktopState`: the same fields, with the
/// strings taken as character sequences.
pub struct DesktopModel {
    pub double_click_enabled: bool,
    pub toggle_action: u8,
    pub widget_is_transparent: bool,
    pub widget_is_hiding: bool,
    pub fade_generation: usize,
    pub popup_window_id: usize,
    pub hook_installed: bool,
    pub pending_click: Option<u32>,
    pub counters: ListenerCounters,
    pub last_target: Option<Seq<char>>,
    pub last_toggle_result: Option<Seq<char>>,
}

/// The character sequence of an optional string.
pub open spec fn text_of(text: Option<String>) -> Option<Seq<char>> {
    match text {
        Some(t) => Some(t@),
        None => None,
    }
}

impl View for DesktopState {
    type V = DesktopModel;

    open spec fn view(&self) -> DesktopModel {
        DesktopModel {
            double_click_enabled: self.double_click_enabled,
            toggle_action: self.toggle_action,
            widget_is_transparent: self.widget_is_transparent,
            widget_is_hiding: self.widget_is_hiding,
            fade_generation: self.fade_generation,
            popup_window_id: self.popup_window_id,
            hook_installed: self.hook_installed,
            pending_click: self.pending_click,
            counters: self.counters,
            last_target: text_of(self.last_target),
            last_toggle_result: text_of(self.last_toggle_result),
        }
    }
}

impl DesktopModel {
    /// The state at process start.
    pub open spec fn is_initial(self) -> bool {
        &&& !self.double_click_enabled
        &&& self.toggle_action == HIDE_WIDGET_ACTION
        &&& !self.widget_is_transparent
        &&& !self.widget_is_hiding
        &&& self.fade_generation == 0
        &&& self.popup_window_id == 0
        &&& !self.hook_installed
        &&& self.pending_click is None
        &&& self.counters == zero_counters()
        &&& self.last_target is None
        &&& self.last_toggle_result is None
    }

}

impl DesktopState {
    /// Creates the state the process starts with.
    pub fn new() -> (state: Self)
        ensures
            state@.is_initial(),
    {
        DesktopState {
            double_click_enabled: false,
            toggle_action: HIDE_WIDGET_ACTION,
            widget_is_transparent: false,
            widget_is_hiding: false,
            fade_generation: 0,
            popup_window_id: 0,
            hook_installed: false,
            pending_click: None,
            counters: ListenerCounters {
                mouse_down: 0,
                desktop_surface_click: 0,
                double_click: 0,
                toggle_dispatch: 0,
                toggle_ui_thread: 0,
                main_window_found: 0,
                toggle: 0,
                icon_click_ignored: 0,
            },
            last_target: None,
            last_toggle_result: None,
        }
    }
}

} // verus!
