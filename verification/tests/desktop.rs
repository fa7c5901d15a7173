use what_n_when::desktop::{
    begin_ui_thread_toggle, desktop_click_hits_icon, desktop_mouse_hook, desktop_window_details,
    finish_test_desktop_toggle, get_desktop_listener_debug, record_ui_toggle_result,
    toggle_main_window, toggle_schedule_failed, update_desktop_listener_target,
    update_desktop_toggle_result, HookMessage, IconProbe, MouseHookEvent, WindowDetails,
    MAX_WINDOW_CHAIN,
};
use what_n_when::state::DesktopState;
use what_n_when::widget::StepStatus;

fn chain(names: &[&str]) -> Option<Vec<String>> {
    Some(names.iter().map(|n| n.to_string()).collect())
}

fn desktop() -> WindowDetails {
    desktop_window_details(chain(&["SysListView32", "SHELLDLL_DefView", "Progman"]))
}

fn click(message: HookMessage, details: WindowDetails, icon_hit: bool, tick: u32) -> MouseHookEvent {
    MouseHookEvent { message, details, icon_hit, tick, double_click_time: 500, has_app: true }
}

fn enabled() -> DesktopState {
    let mut state = DesktopState::new();
    state.double_click_enabled = true;
    state
}

#[test]
fn no_window_under_pointer() {
    let details = desktop_window_details(None);
    assert!(!details.is_desktop_surface);
    assert!(!details.is_progman_window);
    assert_eq!(details.target, "No window at pointer");
}

#[test]
fn desktop_chain_is_desktop_surface() {
    let details = desktop();
    assert!(details.is_desktop_surface);
    assert!(details.is_progman_window);
    assert_eq!(details.target, "SysListView32 > SHELLDLL_DefView > Progman");
    assert_eq!(MAX_WINDOW_CHAIN, 8);
}

#[test]
fn desktop_list_under_worker_window_is_the_surface() {
    let details = desktop_window_details(chain(&["SysListView32", "SHELLDLL_DefView", "WorkerW"]));
    assert!(details.is_desktop_surface);
    assert!(!details.is_progman_window);
}

#[test]
fn only_the_first_windows_of_the_chain_are_examined() {
    let names = ["A", "B", "C", "D", "E", "F", "G", "H", "Progman"];
    let details = desktop_window_details(chain(&names));
    assert!(!details.is_desktop_surface);
    assert!(!details.is_progman_window);
    assert_eq!(details.target, "A > B > C > D > E > F > G > H");
    let names = ["A", "B", "C", "D", "E", "F", "G", "Progman", "CabinetWClass"];
    let details = desktop_window_details(chain(&names));
    assert!(details.is_desktop_surface);
    assert!(details.is_progman_window);
}

#[test]
fn double_click_message_off_progman_does_not_toggle_at_once() {
    let mut state = enabled();
    let worker = || desktop_window_details(chain(&["SysListView32", "SHELLDLL_DefView", "WorkerW"]));
    assert!(!desktop_mouse_hook(&mut state, click(HookMessage::LeftButtonDoubleClick, worker(), false, 100)));
    assert_eq!(state.pending_click, Some(100));
    assert!(desktop_mouse_hook(&mut state, click(HookMessage::LeftButtonDown, worker(), false, 200)));
}

#[test]
fn explorer_windows_are_not_the_desktop() {
    let details = desktop_window_details(chain(&[
        "SysListView32",
        "SHELLDLL_DefView",
        "CabinetWClass",
        "Progman",
    ]));
    assert!(!details.is_desktop_surface);
    assert!(details.is_progman_window);
    let details = desktop_window_details(chain(&["DirectUIHWND", "ExploreWClass"]));
    assert!(!details.is_desktop_surface);
    assert_eq!(details.target, "DirectUIHWND > ExploreWClass");
    let single = desktop_window_details(chain(&["Chrome_WidgetWin_1"]));
    assert!(!single.is_desktop_surface);
    assert_eq!(single.target, "Chrome_WidgetWin_1");
}

#[test]
fn icon_probe_outcomes() {
    assert!(desktop_click_hits_icon(IconProbe::ItemIndex(0)));
    assert!(desktop_click_hits_icon(IconProbe::ItemIndex(7)));
    assert!(!desktop_click_hits_icon(IconProbe::ItemIndex(-1)));
    assert!(!desktop_click_hits_icon(IconProbe::PointNotMapped));
    assert!(!desktop_click_hits_icon(IconProbe::NoOwningProcess));
    assert!(!desktop_click_hits_icon(IconProbe::ProcessNotOpened));
    assert!(!desktop_click_hits_icon(IconProbe::BufferNotAllocated));
    assert!(!desktop_click_hits_icon(IconProbe::WriteFailed));
    assert!(!desktop_click_hits_icon(IconProbe::ReadFailed));
}

#[test]
fn two_quick_clicks_toggle_on_the_second() {
    let mut state = enabled();
    assert!(!desktop_mouse_hook(&mut state, click(HookMessage::LeftButtonDown, desktop(), false, 1000)));
    assert_eq!(state.pending_click, Some(1000));
    assert!(desktop_mouse_hook(&mut state, click(HookMessage::LeftButtonDown, desktop(), false, 1400)));
    assert_eq!(state.pending_click, None);
    assert_eq!(state.counters.double_click, 1);
    assert_eq!(state.counters.toggle_dispatch, 1);
    assert_eq!(state.counters.mouse_down, 2);
    assert_eq!(state.counters.desktop_surface_click, 2);
    assert_eq!(state.last_target.as_deref(), Some("SysListView32 > SHELLDLL_DefView > Progman"));
}

#[test]
fn slow_clicks_do_not_toggle() {
    let mut state = enabled();
    desktop_mouse_hook(&mut state, click(HookMessage::LeftButtonDown, desktop(), false, 1000));
    assert!(!desktop_mouse_hook(&mut state, click(HookMessage::LeftButtonDown, desktop(), false, 1501)));
    assert_eq!(state.pending_click, Some(1501));
    assert_eq!(state.counters.double_click, 0);
}

#[test]
fn clicks_across_the_tick_wrap_still_pair() {
    let mut state = enabled();
    desktop_mouse_hook(&mut state, click(HookMessage::LeftButtonDown, desktop(), false, u32::MAX - 5));
    assert!(desktop_mouse_hook(&mut state, click(HookMessage::LeftButtonDown, desktop(), false, 10)));
}

#[test]
fn double_click_message_on_progman_toggles() {
    let mut state = enabled();
    state.pending_click = Some(3);
    assert!(desktop_mouse_hook(&mut state, click(HookMessage::LeftButtonDoubleClick, desktop(), false, 9000)));
    assert_eq!(state.counters.mouse_down, 0);
    assert_eq!(state.pending_click, Some(3));
    assert_eq!(state.counters.double_click, 1);
}

#[test]
fn icon_clicks_never_toggle() {
    let mut state = enabled();
    desktop_mouse_hook(&mut state, click(HookMessage::LeftButtonDown, desktop(), false, 100));
    assert!(!desktop_mouse_hook(&mut state, click(HookMessage::LeftButtonDown, desktop(), true, 200)));
    assert_eq!(state.pending_click, None);
    assert_eq!(state.counters.icon_click_ignored, 1);
    assert!(!desktop_mouse_hook(&mut state, click(HookMessage::LeftButtonDoubleClick, desktop(), true, 300)));
    assert_eq!(state.counters.double_click, 0);
}

#[test]
fn disabled_listener_never_toggles() {
    let mut state = DesktopState::new();
    desktop_mouse_hook(&mut state, click(HookMessage::LeftButtonDown, desktop(), false, 100));
    assert_eq!(state.pending_click, None);
    assert!(!desktop_mouse_hook(&mut state, click(HookMessage::LeftButtonDoubleClick, desktop(), false, 150)));
    assert_eq!(state.counters.double_click, 0);
    assert_eq!(state.counters.desktop_surface_click, 2);
}

#[test]
fn other_messages_are_ignored() {
    let mut state = enabled();
    state.pending_click = Some(5);
    assert!(!HookMessage::Other.is_left_button());
    assert!(HookMessage::LeftButtonDown.is_left_button());
    assert!(!desktop_mouse_hook(&mut state, click(HookMessage::Other, desktop(), false, 6)));
    assert_eq!(state.pending_click, Some(5));
    assert_eq!(state.last_target, None);
}

#[test]
fn toggle_without_application_is_recorded() {
    let mut state = enabled();
    let mut event = click(HookMessage::LeftButtonDoubleClick, desktop(), false, 1);
    event.has_app = false;
    assert!(!desktop_mouse_hook(&mut state, event));
    assert_eq!(state.last_toggle_result.as_deref(), Some("Desktop listener has no application handle"));
    assert_eq!(state.counters.toggle_dispatch, 0);
    assert!(toggle_main_window(&mut state, true));
    assert_eq!(state.counters.toggle_dispatch, 1);
}

#[test]
fn toggle_result_messages() {
    let mut state = DesktopState::new();
    toggle_schedule_failed(&mut state, "closed".to_string());
    assert_eq!(state.last_toggle_result.as_deref(), Some("Could not schedule UI-thread toggle: closed"));
    record_ui_toggle_result(&mut state, Ok(()));
    assert_eq!(state.last_toggle_result.as_deref(), Some("Toggle completed"));
    record_ui_toggle_result(&mut state, Err("Main window was not found".to_string()));
    assert_eq!(state.last_toggle_result.as_deref(), Some("Toggle failed: Main window was not found"));
    assert_eq!(finish_test_desktop_toggle(&mut state, Ok(())), Ok(()));
    assert_eq!(state.last_toggle_result.as_deref(), Some("Toggle completed by Options test button"));
    assert_eq!(finish_test_desktop_toggle(&mut state, Err("x".to_string())), Err("x".to_string()));
    assert_eq!(state.last_toggle_result.as_deref(), Some("Options test failed: x"));
    update_desktop_toggle_result(&mut state, "plain".to_string());
    assert_eq!(state.last_toggle_result.as_deref(), Some("plain"));
    update_desktop_listener_target(&mut state, "Progman".to_string());
    assert_eq!(state.last_target.as_deref(), Some("Progman"));
}

#[test]
fn ui_thread_toggle_is_counted() {
    let mut state = DesktopState::new();
    let plan = begin_ui_thread_toggle(&mut state, true, Ok(true), 64);
    assert!(matches!(plan.status, StepStatus::Completed));
    assert_eq!(state.counters.toggle_ui_thread, 1);
    assert_eq!(state.counters.toggle, 1);
    assert!(state.widget_is_hiding);
}

#[test]
fn listener_debug_snapshot() {
    let mut state = DesktopState::new();
    let debug = get_desktop_listener_debug(&state);
    assert_eq!(debug.last_target, "No mouse-down event captured yet");
    assert_eq!(debug.last_toggle_result, "No toggle attempted yet");
    assert!(!debug.hook_installed);
    assert_eq!(debug.mouse_down_count, 0);
    state.hook_installed = true;
    state.double_click_enabled = true;
    desktop_mouse_hook(&mut state, click(HookMessage::LeftButtonDown, desktop(), true, 1));
    let debug = get_desktop_listener_debug(&state);
    assert!(debug.hook_installed);
    assert!(debug.listener_enabled);
    assert_eq!(debug.mouse_down_count, 1);
    assert_eq!(debug.desktop_surface_click_count, 1);
    assert_eq!(debug.icon_click_ignored_count, 1);
    assert_eq!(debug.last_target, "SysListView32 > SHELLDLL_DefView > Progman");
}

#[test]
fn counters_wrap_around() {
    let mut state = enabled();
    state.counters.mouse_down = usize::MAX;
    desktop_mouse_hook(&mut state, click(HookMessage::LeftButtonDown, desktop(), false, 1));
    assert_eq!(state.counters.mouse_down, 0);
}

#[test]
fn initial_state() {
    let state = DesktopState::new();
    assert!(!state.double_click_enabled);
    assert_eq!(state.toggle_action, 0);
    assert!(!state.widget_is_transparent && !state.widget_is_hiding);
    assert_eq!(state.fade_generation, 0);
    assert_eq!(state.pending_click, None);
    assert!(state.last_target.is_none() && state.last_toggle_result.is_none());
}

#[test]
fn quick_clicks_toggle_on_every_second_click() {
    let mut state = enabled();
    let mut toggles = Vec::new();
    for k in 0..5u32 {
        toggles.push(desktop_mouse_hook(&mut state, click(HookMessage::LeftButtonDown, desktop(), false, 1000 + 100 * k)));
    }
    assert_eq!(toggles, vec![false, true, false, true, false]);
    assert_eq!(state.counters.double_click, 2);
    assert_eq!(state.pending_click, Some(1400));
}
