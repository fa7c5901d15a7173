use what_n_when::commands::{
    apply_startup_settings, get_options, main_window_title, next_popup_window_label,
    record_window_bounds, remove_legacy_electron_autostart, reset_options, save_options,
    update_transparency_level, window_bounds_to_restore,
};
use what_n_when::options::{
    DesktopToggleAction, Options, Settings, WindowBounds, DEFAULT_TRANSPARENCY_LEVEL,
    HIDE_WIDGET_ACTION, TRANSPARENT_WIDGET_ACTION,
};
use what_n_when::state::DesktopState;

fn bounds() -> WindowBounds {
    WindowBounds { x: -20, y: 40, width: 800, height: 600 }
}

fn stored() -> Settings {
    Settings {
        options: Options {
            remember_window_bounds: true,
            open_at_login: true,
            toggle_on_desktop_double_click: true,
            desktop_toggle_action: DesktopToggleAction::Transparent,
            transparency_level: 100,
        },
        window_bounds: Some(bounds()),
    }
}

#[test]
fn toggle_actions_encode_as_bytes() {
    assert_eq!(DesktopToggleAction::Hide.as_u8(), 0);
    assert_eq!(DesktopToggleAction::Transparent.as_u8(), 1);
    assert_eq!(DesktopToggleAction::Hide.as_u8(), HIDE_WIDGET_ACTION);
    assert_eq!(DesktopToggleAction::Transparent.as_u8(), TRANSPARENT_WIDGET_ACTION);
    assert_eq!(DesktopToggleAction::default(), DesktopToggleAction::Hide);
}

#[test]
fn default_options_and_settings() {
    let options = Options::default();
    assert!(options.remember_window_bounds);
    assert!(!options.open_at_login);
    assert!(!options.toggle_on_desktop_double_click);
    assert_eq!(options.desktop_toggle_action, DesktopToggleAction::Hide);
    assert_eq!(options.transparency_level, 64);
    assert_eq!(DEFAULT_TRANSPARENCY_LEVEL, 64);
    let settings = Settings::default();
    assert_eq!(settings.options, options);
    assert_eq!(settings.window_bounds, None);
}

#[test]
fn get_options_reflects_autostart_registration() {
    let mut settings = stored();
    settings.options.open_at_login = false;
    assert!(get_options(settings, Some(true)).open_at_login);
    let mut expected = settings.options;
    expected.open_at_login = false;
    assert_eq!(get_options(stored(), None), expected);
    assert_eq!(get_options(stored(), Some(false)), expected);
}

#[test]
fn saving_without_edits_changes_nothing() {
    let mut state = DesktopState::new();
    let saved = save_options(&mut state, stored(), None, None, None, None, None);
    assert_eq!(saved.settings, stored());
    assert_eq!(saved.autostart, None);
    assert_eq!(saved.restores, 0);
    assert!(!state.double_click_enabled);
    assert_eq!(state.toggle_action, HIDE_WIDGET_ACTION);
}

#[test]
fn forgetting_window_bounds_clears_them() {
    let mut state = DesktopState::new();
    let saved = save_options(&mut state, stored(), Some(false), None, None, None, None);
    assert!(!saved.settings.options.remember_window_bounds);
    assert_eq!(saved.settings.window_bounds, None);
    assert_eq!(window_bounds_to_restore(&saved.settings), None);
    // keeping them on keeps the bounds
    let kept = save_options(&mut state, stored(), Some(true), None, None, None, None);
    assert_eq!(kept.settings.window_bounds, Some(bounds()));
}

#[test]
fn saving_edits_updates_settings_and_listener() {
    let mut state = DesktopState::new();
    let saved = save_options(
        &mut state,
        Settings::default(),
        None,
        Some(true),
        Some(true),
        Some(DesktopToggleAction::Transparent),
        Some(200),
    );
    assert!(saved.settings.options.open_at_login);
    assert!(saved.settings.options.toggle_on_desktop_double_click);
    assert_eq!(saved.settings.options.desktop_toggle_action, DesktopToggleAction::Transparent);
    assert_eq!(saved.settings.options.transparency_level, 200);
    assert!(saved.settings.options.remember_window_bounds);
    assert_eq!(saved.autostart, Some(true));
    assert_eq!(saved.restores, 0);
    assert!(state.double_click_enabled);
    assert_eq!(state.toggle_action, TRANSPARENT_WIDGET_ACTION);
    // the same edits again change nothing more
    let again = save_options(
        &mut state,
        saved.settings,
        None,
        Some(true),
        Some(true),
        Some(DesktopToggleAction::Transparent),
        Some(200),
    );
    assert_eq!(again.settings, saved.settings);
}

#[test]
fn switching_the_toggle_off_restores_with_the_stored_level() {
    let mut state = DesktopState::new();
    state.double_click_enabled = true;
    let saved = save_options(&mut state, stored(), None, Some(false), Some(false), None, Some(7));
    assert_eq!(saved.restores, 1);
    assert_eq!(saved.restore_level, 100);
    assert_eq!(saved.autostart, Some(false));
    assert!(!state.double_click_enabled);
    assert_eq!(saved.settings.options.transparency_level, 7);

    let mut state = DesktopState::new();
    state.toggle_action = TRANSPARENT_WIDGET_ACTION;
    let saved = save_options(&mut state, stored(), None, None, None, Some(DesktopToggleAction::Hide), None);
    assert_eq!(saved.restores, 1);
    assert_eq!(saved.restore_level, 100);
    assert_eq!(state.toggle_action, HIDE_WIDGET_ACTION);

    let both = save_options(&mut state, stored(), None, None, Some(false), Some(DesktopToggleAction::Hide), Some(3));
    assert_eq!(both.restores, 2);
    assert_eq!(both.restore_level, 100);
}

#[test]
fn reset_restores_defaults_and_keeps_bounds() {
    let mut state = DesktopState::new();
    state.double_click_enabled = true;
    state.toggle_action = TRANSPARENT_WIDGET_ACTION;
    let saved = reset_options(&mut state, stored());
    assert_eq!(saved.settings.options, Options::default());
    assert_eq!(saved.settings.window_bounds, Some(bounds()));
    assert_eq!(saved.autostart, Some(false));
    assert_eq!(saved.restores, 1);
    assert_eq!(saved.restore_level, 100);
    assert!(!state.double_click_enabled);
    assert_eq!(state.toggle_action, HIDE_WIDGET_ACTION);
}

#[test]
fn transparency_level_update() {
    let updated = update_transparency_level(stored(), 5);
    assert_eq!(updated.options.transparency_level, 5);
    assert_eq!(updated.window_bounds, stored().window_bounds);
    assert_eq!(updated.options.desktop_toggle_action, DesktopToggleAction::Transparent);
}

#[test]
fn startup_settings_reach_the_listener() {
    let mut state = DesktopState::new();
    apply_startup_settings(&mut state, &stored());
    assert!(state.double_click_enabled);
    assert_eq!(state.toggle_action, TRANSPARENT_WIDGET_ACTION);
    apply_startup_settings(&mut state, &Settings::default());
    assert!(!state.double_click_enabled);
    assert_eq!(state.toggle_action, HIDE_WIDGET_ACTION);
}

#[test]
fn window_titles() {
    assert_eq!(main_window_title(true), "What-N-When (DEV BUILD)");
    assert_eq!(main_window_title(false), "What-N-When");
}

#[test]
fn window_bounds_round_trip() {
    let mut settings = stored();
    settings.window_bounds = None;
    let recorded = record_window_bounds(settings, Some((5, -6)), Some((300, 200))).unwrap();
    assert_eq!(
        window_bounds_to_restore(&recorded),
        Some(WindowBounds { x: 5, y: -6, width: 300, height: 200 })
    );
    assert_eq!(recorded.options, settings.options);
    assert_eq!(record_window_bounds(settings, None, Some((300, 200))), None);
    assert_eq!(record_window_bounds(settings, Some((5, 6)), None), None);
    let mut forgetful = stored();
    forgetful.options.remember_window_bounds = false;
    assert_eq!(record_window_bounds(forgetful, Some((5, 6)), Some((1, 2))), None);
    assert_eq!(window_bounds_to_restore(&forgetful), None);
    assert_eq!(window_bounds_to_restore(&stored()), Some(bounds()));
}

#[test]
fn legacy_autostart_entry() {
    let entry = remove_legacy_electron_autostart();
    assert_eq!(entry.key_path, "SOFTWARE\\Microsoft\\Windows\\CurrentVersion\\Run");
    assert_eq!(entry.value_name, "ca.willryan.notioncalendarwidget");
}

#[test]
fn popup_labels_count_up() {
    let mut state = DesktopState::new();
    assert_eq!(next_popup_window_label(&mut state), "notion-calendar-popup-0");
    assert_eq!(next_popup_window_label(&mut state), "notion-calendar-popup-1");
    assert_eq!(state.popup_window_id, 2);
    state.popup_window_id = 1234;
    assert_eq!(next_popup_window_label(&mut state), "notion-calendar-popup-1234");
    state.popup_window_id = 90;
    assert_eq!(next_popup_window_label(&mut state), "notion-calendar-popup-90");
    state.popup_window_id = usize::MAX;
    assert_eq!(next_popup_window_label(&mut state), format!("notion-calendar-popup-{}", usize::MAX));
    assert_eq!(state.popup_window_id, 0);
}

#[test]
fn many_popup_requests_get_distinct_labels() {
    let mut state = DesktopState::new();
    state.popup_window_id = usize::MAX - 2;
    let labels: Vec<String> = (0..6).map(|_| next_popup_window_label(&mut state)).collect();
    for j in 0..labels.len() {
        for k in (j + 1)..labels.len() {
            assert_ne!(labels[j], labels[k]);
        }
    }
    assert_eq!(labels[3], "notion-calendar-popup-0");
    assert_eq!(state.popup_window_id, 3);
}
