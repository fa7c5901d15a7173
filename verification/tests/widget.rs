use what_n_when::state::DesktopState;
use what_n_when::widget::{
    fade_is_current, fade_main_window, fade_opacity, finish_fade, finish_restore_after_show,
    finish_toggle_after_show, live_transparency_opacity, perform_main_window_toggle,
    restore_main_window, set_main_window_transparent, transparency_opacity, Fade, StepStatus,
    WidgetCommand, FADE_STEPS,
};

fn fade(generation: usize, from: u8, to: u8, hide: bool) -> WidgetCommand {
    WidgetCommand::StartFade(Fade {
        generation,
        from,
        to,
        hide_after_fade: hide,
        ignore_cursor_after_fade: false,
    })
}

#[test]
fn transparency_levels_invert_into_opacity() {
    assert_eq!(transparency_opacity(0), 255);
    assert_eq!(transparency_opacity(255), 0);
    assert_eq!(transparency_opacity(64), 191);
}

#[test]
fn fade_frames_match_rounded_interpolation() {
    for from in 0..=255u8 {
        for to in 0..=255u8 {
            for step in 0..=FADE_STEPS {
                let progress = step as f32 / FADE_STEPS as f32;
                let expected = (from as f32 + (to as f32 - from as f32) * progress).round() as u8;
                assert_eq!(fade_opacity(from, to, step), expected, "{from} {to} {step}");
            }
        }
    }
}

#[test]
fn fade_endpoints_and_middle() {
    assert_eq!(fade_opacity(255, 0, 0), 255);
    assert_eq!(fade_opacity(255, 0, FADE_STEPS), 0);
    assert_eq!(fade_opacity(0, 255, 1), 20);
    assert_eq!(fade_opacity(0, 255, 6), 118);
    assert_eq!(fade_opacity(255, 191, 7), 221);
}

#[test]
fn new_fades_supersede_old_ones() {
    let mut state = DesktopState::new();
    let first = fade_main_window(&mut state, 0, 255, false, false);
    assert_eq!(first.generation, 1);
    assert!(fade_is_current(&state, 1));
    let second = fade_main_window(&mut state, 255, 0, true, true);
    assert_eq!(second.generation, 2);
    assert!(!fade_is_current(&state, first.generation));
    assert!(finish_fade(&mut state, first, true).is_empty());
    state.widget_is_hiding = true;
    let closing = finish_fade(&mut state, second, true);
    assert_eq!(closing, vec![WidgetCommand::SetIgnoreCursorEvents(true), WidgetCommand::Hide]);
    assert!(!state.widget_is_hiding);
}

#[test]
fn fade_generation_wraps_around() {
    let mut state = DesktopState::new();
    state.fade_generation = usize::MAX;
    let f = fade_main_window(&mut state, 1, 2, false, false);
    assert_eq!(f.generation, 0);
    assert_eq!(state.fade_generation, 0);
}

#[test]
fn finishing_a_fade_without_window_does_nothing() {
    let mut state = DesktopState::new();
    let f = fade_main_window(&mut state, 255, 0, true, false);
    state.widget_is_hiding = true;
    assert!(finish_fade(&mut state, f, false).is_empty());
    assert!(state.widget_is_hiding);
    assert_eq!(finish_fade(&mut state, f, true), vec![WidgetCommand::Hide]);
    assert!(!state.widget_is_hiding);
}

#[test]
fn toggle_hides_a_shown_widget() {
    let mut state = DesktopState::new();
    let plan = perform_main_window_toggle(&mut state, true, Ok(true), 64);
    assert!(matches!(plan.status, StepStatus::Completed));
    assert_eq!(plan.commands, vec![fade(1, 255, 0, true)]);
    assert!(state.widget_is_hiding);
    assert!(!state.widget_is_transparent);
    assert_eq!(state.counters.main_window_found, 1);
    assert_eq!(state.counters.toggle, 1);
}

#[test]
fn toggle_makes_a_shown_widget_transparent() {
    let mut state = DesktopState::new();
    state.toggle_action = 1;
    let plan = perform_main_window_toggle(&mut state, true, Ok(true), 64);
    assert!(matches!(plan.status, StepStatus::Completed));
    assert_eq!(plan.commands, vec![fade(1, 255, 191, false)]);
    assert!(state.widget_is_transparent);
    assert!(!state.widget_is_hiding);
    // and the next toggle brings it back
    let back = perform_main_window_toggle(&mut state, true, Ok(true), 64);
    assert!(matches!(back.status, StepStatus::Completed));
    assert_eq!(
        back.commands,
        vec![WidgetCommand::SetIgnoreCursorEvents(false), fade(2, 191, 255, false)]
    );
    assert!(!state.widget_is_transparent);
    assert_eq!(state.counters.toggle, 2);
    assert_eq!(live_transparency_opacity(&state, 10), None);
}

#[test]
fn toggle_while_hiding_restores() {
    let mut state = DesktopState::new();
    perform_main_window_toggle(&mut state, true, Ok(true), 64);
    let plan = perform_main_window_toggle(&mut state, true, Ok(true), 64);
    assert!(matches!(plan.status, StepStatus::Completed));
    assert!(plan.commands.is_empty());
    assert!(!state.widget_is_hiding);
    assert_eq!(state.counters.toggle, 2);
}

#[test]
fn toggle_of_hidden_widget_shows_it() {
    let mut state = DesktopState::new();
    let plan = perform_main_window_toggle(&mut state, true, Ok(false), 64);
    assert!(matches!(plan.status, StepStatus::AwaitingShow));
    assert_eq!(plan.commands, vec![WidgetCommand::SetOpacity(0), WidgetCommand::Show]);
    assert_eq!(state.counters.toggle, 0);
    let done = finish_toggle_after_show(&mut state, Ok(()));
    assert!(matches!(done.status, StepStatus::Completed));
    assert_eq!(done.commands, vec![fade(1, 0, 255, false)]);
    assert_eq!(state.counters.toggle, 1);
}

#[test]
fn failed_show_fails_the_toggle() {
    let mut state = DesktopState::new();
    state.widget_is_hiding = true;
    perform_main_window_toggle(&mut state, true, Ok(false), 64);
    let done = finish_toggle_after_show(&mut state, Err("no show".to_string()));
    match done.status {
        StepStatus::Failed(message) => assert_eq!(message, "no show"),
        other => panic!("unexpected {other:?}"),
    }
    assert!(done.commands.is_empty());
    assert!(state.widget_is_hiding);
    assert_eq!(state.counters.toggle, 0);
    assert_eq!(state.fade_generation, 0);
}

#[test]
fn visibility_error_fails_the_toggle() {
    let mut state = DesktopState::new();
    let plan = perform_main_window_toggle(&mut state, true, Err("gone".to_string()), 64);
    match plan.status {
        StepStatus::Failed(message) => assert_eq!(message, "gone"),
        other => panic!("unexpected {other:?}"),
    }
    assert_eq!(state.counters.main_window_found, 1);
    assert_eq!(state.counters.toggle, 0);
}

#[test]
fn missing_window_fails() {
    let mut state = DesktopState::new();
    let plan = perform_main_window_toggle(&mut state, false, Ok(true), 64);
    match plan.status {
        StepStatus::Failed(message) => assert_eq!(message, "Main window was not found"),
        other => panic!("unexpected {other:?}"),
    }
    assert_eq!(state.counters.main_window_found, 0);
    let plan = restore_main_window(&mut state, false, Ok(true), 64);
    assert!(matches!(plan.status, StepStatus::Failed(_)));
}

#[test]
fn restore_of_transparent_hidden_widget() {
    let mut state = DesktopState::new();
    state.widget_is_transparent = true;
    state.widget_is_hiding = true;
    let plan = restore_main_window(&mut state, true, Ok(false), 100);
    assert!(matches!(plan.status, StepStatus::AwaitingShow));
    assert_eq!(
        plan.commands,
        vec![
            WidgetCommand::SetIgnoreCursorEvents(false),
            fade(1, 155, 255, false),
            WidgetCommand::SetOpacity(0),
            WidgetCommand::Show,
        ]
    );
    assert!(!state.widget_is_transparent);
    let done = finish_restore_after_show(&mut state, Ok(()));
    assert_eq!(done.commands, vec![fade(2, 0, 255, false)]);
    assert!(!state.widget_is_hiding);
    assert_eq!(state.counters.toggle, 0);
    // restoring again changes nothing
    let again = restore_main_window(&mut state, true, Ok(true), 100);
    assert!(matches!(again.status, StepStatus::Completed));
    assert!(again.commands.is_empty());
    assert_eq!(state.fade_generation, 2);
}

#[test]
fn transparency_commands() {
    let mut state = DesktopState::new();
    let on = set_main_window_transparent(&mut state, true, 0, true);
    assert_eq!(on, vec![fade(1, 255, 255, false)]);
    assert!(state.widget_is_transparent);
    assert_eq!(live_transparency_opacity(&state, 30), Some(225));
    let off = set_main_window_transparent(&mut state, false, 30, false);
    assert_eq!(off, vec![fade(2, 225, 255, false)]);
    assert!(!state.widget_is_transparent);
}

#[test]
fn hide_fade_then_toggle_brings_widget_back() {
    let mut state = DesktopState::new();
    let away = perform_main_window_toggle(&mut state, true, Ok(true), 64);
    let started = match away.commands[0] {
        WidgetCommand::StartFade(f) => f,
        other => panic!("unexpected {other:?}"),
    };
    assert_eq!(finish_fade(&mut state, started, true), vec![WidgetCommand::Hide]);
    assert!(!state.widget_is_hiding);
    let back = perform_main_window_toggle(&mut state, true, Ok(false), 64);
    assert!(matches!(back.status, StepStatus::AwaitingShow));
    let done = finish_toggle_after_show(&mut state, Ok(()));
    assert!(matches!(done.status, StepStatus::Completed));
    assert!(!state.widget_is_hiding && !state.widget_is_transparent);
    assert_eq!(state.counters.toggle, 2);
}

#[test]
fn fade_frames_move_steadily() {
    for (from, to) in [(0u8, 255u8), (255, 0), (191, 255), (40, 40)] {
        let frames: Vec<u8> = (0..=FADE_STEPS).map(|step| fade_opacity(from, to, step)).collect();
        assert_eq!(frames[0], from);
        assert_eq!(*frames.last().unwrap(), to);
        for pair in frames.windows(2) {
            if from <= to {
                assert!(pair[0] <= pair[1]);
            } else {
                assert!(pair[0] >= pair[1]);
            }
        }
    }
}
