//! Show / hide / transparency state machine of the main widget window.
//!
//! The functions here decide what happens to the widget and return the window
//! commands to perform; the caller owns the window, performs the commands in
//! order, and reports back what only the window can tell (whether it exists,
//! whether it is visible, whether showing it worked).

use vstd::prelude::*;
use crate::options::TRANSPARENT_WIDGET_ACTION;
use crate::state::{DesktopModel, DesktopState, ListenerCounters, bump, bumped};

verus! {

/// Number of opacity steps of a fade after the first frame.
pub const FADE_STEPS: u16 = 13;

/// Milliseconds between two frames of a fade.
pub const FADE_STEP_DURATION_MS: u64 = 20;

/// A fade of the main window's opacity from `from` to `to`.
#[derive(Clone, Copy, Debug, PartialEq, Eq, Structural)]
pub struct Fade {
    /// The fade runs only while this is the latest fade generation.
    pub generation: usize,
    pub from: u8,
    pub to: u8,
    /// Hide the window when the fade has finished.
    pub hide_after_fade: bool,
    /// Let mouse events pass through the window when the fade has finished.
    pub ignore_cursor_after_fade: bool,
}

/// A command for the main window.
#[derive(Clone, Copy, Debug, PartialEq, Eq, Structural)]
pub enum WidgetCommand {
    SetIgnoreCursorEvents(bool),
    StartFade(Fade),
    SetOpacity(u8),
    Show,
    Hide,
}

/// How far a widget operation got.
#[derive(Debug)]
pub enum StepStatus {
    /// The operation is complete.
    Completed,
    /// The last command is `Show`; its outcome must be reported to finish.
    AwaitingShow,
    /// The operation failed with this message.
    Failed(String),
}

/// The mathematical value of a `StepStatus`.
pub enum StatusView {
    Completed,
    AwaitingShow,
    Failed(Seq<char>),
}

impl View for StepStatus {
    type V = StatusView;

    open spec fn view(&self) -> StatusView {
        match self {
            StepStatus::Completed => StatusView::Completed,
            StepStatus::AwaitingShow => StatusView::AwaitingShow,
            StepStatus::Failed(message) => StatusView::Failed(message@),
        }
    }
}

/// Commands to perform in order, and how far the operation got.
#[derive(Debug)]
pub struct WidgetPlan {
    pub commands: Vec<WidgetCommand>,
    pub status: StepStatus,
}

/// Error message when the main window does not exist.
pub open spec fn missing_window_message() -> Seq<char> {
    "Main window was not found"@
}

fn missing_window() -> (message: String)
    ensures
        message@ == missing_window_message(),
{
    String::from_str("Main window was not found")
}

/// Window opacity for a transparency level: the options use 0 = opaque and
/// 255 = transparent, the window uses 0 = transparent and 255 = opaque.
pub open spec fn opacity_for_level(level: u8) -> u8 {
    (255 - level) as u8
}

/// Converts a transparency level of the options into a window opacity.
pub fn transparency_opacity(level: u8) -> (opacity: u8)
    ensures
        opacity == opacity_for_level(level),
        opacity + level == 255,
{
    u8::MAX - level
}

/// Opacity of frame `step` of a fade from `from` to `to`: the linear
/// interpolation `from + (to - from) * step / FADE_STEPS`, rounded to the
/// nearest integer (the interpolant is never exactly halfway between two).
pub open spec fn fade_opacity_at(from: u8, to: u8, step: u16) -> int {
    (2 * (from * (FADE_STEPS - step) + to * step) + FADE_STEPS) / (2 * FADE_STEPS)
}

/// Opacity of frame `step` of a fade (frames `0..=FADE_STEPS`).
pub fn fade_opacity(from: u8, to: u8, step: u16) -> (opacity: u8)
    requires
        step <= FADE_STEPS,
    ensures
        opacity == fade_opacity_at(from, to, step),
{
    let rest: u32 = (FADE_STEPS - step) as u32;
    let done: u32 = step as u32;
    assert(from * rest <= 255 * rest) by (nonlinear_arith)
        requires
            from <= 255,
    ;
    assert(to * done <= 255 * done) by (nonlinear_arith)
        requires
            to <= 255,
    ;
    let weighted: u32 = (from as u32) * rest + (to as u32) * done;
    let opacity: u32 = (2 * weighted + 13) / 26;
    assert(opacity <= 255);
    opacity as u8
}

/// Whether the fade of `generation` is the latest one (older fades stop).
pub fn fade_is_current(state: &DesktopState, generation: usize) -> (current: bool)
    ensures
        current == (state.fade_generation == generation),
{
    state.fade_generation == generation
}

/// State after a new fade has been started.
pub open spec fn with_new_fade(s: DesktopModel) -> DesktopModel {
    DesktopModel { fade_generation: bumped(s.fade_generation), ..s }
}

/// Starts a new fade of the main window, which supersedes every earlier one.
pub fn fade_main_window(
    state: &mut DesktopState,
    from: u8,
    to: u8,
    hide_after_fade: bool,
    ignore_cursor_after_fade: bool,
) -> (fade: Fade)
    ensures
        final(state)@ == with_new_fade(old(state)@),
        fade == (Fade {
            generation: bumped(old(state).fade_generation),
            from,
            to,
            hide_after_fade,
            ignore_cursor_after_fade,
        }),
{
    let generation = bump(state.fade_generation);
    state.fade_generation = generation;
    Fade { generation, from, to, hide_after_fade, ignore_cursor_after_fade }
}

/// Outcome of `finish_fade`.
pub open spec fn finish_fade_outcome(s: DesktopModel, fade: Fade, window_found: bool) -> (
    DesktopModel,
    Seq<WidgetCommand>,
) {
    if s.fade_generation != fade.generation || !window_found {
        (s, seq![])
    } else {
        let ignore: Seq<WidgetCommand> = if fade.ignore_cursor_after_fade {
            seq![WidgetCommand::SetIgnoreCursorEvents(true)]
        } else {
            seq![]
        };
        let hide: Seq<WidgetCommand> = if fade.hide_after_fade {
            seq![WidgetCommand::Hide]
        } else {
            seq![]
        };
        (
            if fade.hide_after_fade {
                DesktopModel { widget_is_hiding: false, ..s }
            } else {
                s
            },
            ignore + hide,
        )
    }
}

/// Ends a fade whose frames have all been shown: unless a newer fade has
/// started or the window is gone, applies the fade's closing effects.
pub fn finish_fade(state: &mut DesktopState, fade: Fade, window_found: bool) -> (commands: Vec<
    WidgetCommand,
>)
    ensures
        (final(state)@, commands@) == finish_fade_outcome(old(state)@, fade, window_found),
{
    let mut commands: Vec<WidgetCommand> = Vec::new();
    if state.fade_generation != fade.generation || !window_found {
        assert(commands@ =~= seq![]);
        return commands;
    }
    if fade.ignore_cursor_after_fade {
        commands.push(WidgetCommand::SetIgnoreCursorEvents(true));
    }
    if fade.hide_after_fade {
        commands.push(WidgetCommand::Hide);
        state.widget_is_hiding = false;
    }
    proof {
        let (_, expected) = finish_fade_outcome(old(state)@, fade, window_found);
        assert(commands@ =~= expected);
    }
    commands
}

/// Outcome of `set_main_window_transparent`.
pub open spec fn transparency_outcome(
    s: DesktopModel,
    transparent: bool,
    level: u8,
    window_found: bool,
) -> (DesktopModel, Seq<WidgetCommand>) {
    let faded = with_new_fade(s);
    let g = faded.fade_generation;
    let opacity = opacity_for_level(level);
    (
        DesktopModel { widget_is_transparent: transparent, ..faded },
        if transparent {
            seq![
                WidgetCommand::StartFade(
                    Fade {
                        generation: g,
                        from: 255,
                        to: opacity,
                        hide_after_fade: false,
                        ignore_cursor_after_fade: false,
                    },
                ),
            ]
        } else {
            let fade = WidgetCommand::StartFade(
                Fade {
                    generation: g,
                    from: opacity,
                    to: 255,
                    hide_after_fade: false,
                    ignore_cursor_after_fade: false,
                },
            );
            if window_found {
                seq![WidgetCommand::SetIgnoreCursorEvents(false), fade]
            } else {
                seq![fade]
            }
        },
    )
}

/// Fades the widget to its transparency level (`transparent`) or back to
/// fully opaque; the transparent widget still takes mouse input.
pub fn set_main_window_transparent(
    state: &mut DesktopState,
    transparent: bool,
    transparency_level: u8,
    window_found: bool,
) -> (commands: Vec<WidgetCommand>)
    ensures
        (final(state)@, commands@) == transparency_outcome(
            old(state)@,
            transparent,
            transparency_level,
            window_found,
        ),
{
    let opacity = transparency_opacity(transparency_level);
    let mut commands: Vec<WidgetCommand> = Vec::new();
    if transparent {
        let fade = fade_main_window(state, u8::MAX, opacity, false, false);
        commands.push(WidgetCommand::StartFade(fade));
    } else {
        if window_found {
            commands.push(WidgetCommand::SetIgnoreCursorEvents(false));
        }
        let fade = fade_main_window(state, opacity, u8::MAX, false, false);
        commands.push(WidgetCommand::StartFade(fade));
    }
    state.widget_is_transparent = transparent;
    proof {
        let (_, expected) = transparency_outcome(
            old(state)@,
            transparent,
            transparency_level,
            window_found,
        );
        assert(commands@ =~= expected);
    }
    commands
}

/// Outcome of `restore_main_window`: the state, the commands, and the status.
pub open spec fn restore_outcome(
    s: DesktopModel,
    window_found: bool,
    visible: Result<bool, String>,
    level: u8,
) -> (DesktopModel, Seq<WidgetCommand>, StatusView) {
    if !window_found {
        (s, seq![], StatusView::Failed(missing_window_message()))
    } else {
        let (t, faded) = if s.widget_is_transparent {
            transparency_outcome(DesktopModel { widget_is_transparent: false, ..s }, false, level, true)
        } else {
            (s, seq![])
        };
        match visible {
            Err(e) => (t, faded, StatusView::Failed(e@)),
            Ok(true) => (
                DesktopModel { widget_is_hiding: false, ..t },
                faded,
                StatusView::Completed,
            ),
            Ok(false) => (
                t,
                faded + seq![WidgetCommand::SetOpacity(0), WidgetCommand::Show],
                StatusView::AwaitingShow,
            ),
        }
    }
}

/// Brings the widget back to shown and opaque.
///
/// `window_found` tells whether the main window exists, `visible` is its
/// visibility (or the error of asking for it), and `transparency_level` the
/// level stored in the settings file. A transparent widget fades back to
/// opaque; a hidden one is made fully transparent and shown, after which the
/// caller reports the outcome of `Show` to `finish_restore_after_show`.
pub fn restore_main_window(
    state: &mut DesktopState,
    window_found: bool,
    visible: Result<bool, String>,
    transparency_level: u8,
) -> (plan: WidgetPlan)
    ensures
        (final(state)@, plan.commands@, plan.status@) == restore_outcome(
            old(state)@,
            window_found,
            visible,
            transparency_level,
        ),
{
    if !window_found {
        let commands: Vec<WidgetCommand> = Vec::new();
        assert(commands@ =~= seq![]);
        return WidgetPlan { commands, status: StepStatus::Failed(missing_window()) };
    }
    let mut commands: Vec<WidgetCommand> = if state.widget_is_transparent {
        state.widget_is_transparent = false;
        set_main_window_transparent(state, false, transparency_level, true)
    } else {
        let none: Vec<WidgetCommand> = Vec::new();
        assert(none@ =~= seq![]);
        none
    };
    let ghost faded = commands@;
    match visible {
        Err(e) => WidgetPlan { commands, status: StepStatus::Failed(e) },
        Ok(true) => {
            state.widget_is_hiding = false;
            WidgetPlan { commands, status: StepStatus::Completed }
        },
        Ok(false) => {
            commands.push(WidgetCommand::SetOpacity(0));
            commands.push(WidgetCommand::Show);
            assert(commands@ =~= faded + seq![WidgetCommand::SetOpacity(0), WidgetCommand::Show]);
            WidgetPlan { commands, status: StepStatus::AwaitingShow }
        },
    }
}

/// Outcome of `finish_restore_after_show`.
pub open spec fn finish_restore_outcome(s: DesktopModel, shown: Result<(), String>) -> (
    DesktopModel,
    Seq<WidgetCommand>,
    StatusView,
) {
    match shown {
        Err(e) => (s, seq![], StatusView::Failed(e@)),
        Ok(_) => {
            let faded = with_new_fade(s);
            (
                DesktopModel { widget_is_hiding: false, ..faded },
                seq![
                    WidgetCommand::StartFade(
                        Fade {
                            generation: faded.fade_generation,
                            from: 0,
                            to: 255,
                            hide_after_fade: false,
                            ignore_cursor_after_fade: false,
                        },
                    ),
                ],
                StatusView::Completed,
            )
        },
    }
}

/// Completes a restore that ended with `Show`: on success the widget fades in.
pub fn finish_restore_after_show(state: &mut DesktopState, shown: Result<(), String>) -> (plan:
    WidgetPlan)
    ensures
        (final(state)@, plan.commands@, plan.status@) == finish_restore_outcome(
            old(state)@,
            shown,
        ),
{
    let mut commands: Vec<WidgetCommand> = Vec::new();
    match shown {
        Err(e) => {
            assert(commands@ =~= seq![]);
            WidgetPlan { commands, status: StepStatus::Failed(e) }
        },
        Ok(()) => {
            let fade = fade_main_window(state, 0, u8::MAX, false, false);
            commands.push(WidgetCommand::StartFade(fade));
            state.widget_is_hiding = false;
            assert(commands@ =~= seq![WidgetCommand::StartFade(fade)]);
            WidgetPlan { commands, status: StepStatus::Completed }
        },
    }
}

/// State with one more completed toggle counted.
pub open spec fn with_toggle_counted(s: DesktopModel) -> DesktopModel {
    DesktopModel {
        counters: ListenerCounters { toggle: bumped(s.counters.toggle), ..s.counters },
        ..s
    }
}

/// Counts a completed toggle.
fn count_toggle(state: &mut DesktopState)
    ensures
        final(state)@ == with_toggle_counted(old(state)@),
{
    state.counters.toggle = bump(state.counters.toggle);
}

/// Whether a toggle brings the widget back rather than sending it away.
pub open spec fn toggle_restores(s: DesktopModel, visible: Result<bool, String>) -> bool {
    s.widget_is_hiding || visible == Ok::<bool, String>(false) || s.widget_is_transparent
}

/// Outcome of `perform_main_window_toggle`.
pub open spec fn toggle_outcome(
    s: DesktopModel,
    window_found: bool,
    visible: Result<bool, String>,
    level: u8,
) -> (DesktopModel, Seq<WidgetCommand>, StatusView) {
    if !window_found {
        (s, seq![], StatusView::Failed(missing_window_message()))
    } else {
        let found = DesktopModel {
            counters: ListenerCounters {
                main_window_found: bumped(s.counters.main_window_found),
                ..s.counters
            },
            ..s
        };
        if !found.widget_is_hiding && visible is Err {
            (found, seq![], StatusView::Failed(visible->Err_0@))
        } else if toggle_restores(found, visible) {
            let (r, commands, status) = restore_outcome(found, true, visible, level);
            (
                if status is Completed {
                    with_toggle_counted(r)
                } else {
                    r
                },
                commands,
                status,
            )
        } else if found.toggle_action == TRANSPARENT_WIDGET_ACTION {
            let (t, commands) = transparency_outcome(found, true, level, true);
            (with_toggle_counted(t), commands, StatusView::Completed)
        } else {
            let faded = with_new_fade(found);
            (
                with_toggle_counted(DesktopModel { widget_is_hiding: true, ..faded }),
                seq![
                    WidgetCommand::StartFade(
                        Fade {
                            generation: faded.fade_generation,
                            from: 255,
                            to: 0,
                            hide_after_fade: true,
                            ignore_cursor_after_fade: false,
                        },
                    ),
                ],
                StatusView::Completed,
            )
        }
    }
}

/// Toggles the widget: a hidden, hiding or transparent widget is restored;
/// otherwise it fades to its transparency level or fades out and hides,
/// as the toggle action says.
///
/// `window_found`, `visible` and `transparency_level` are as for
/// `restore_main_window`. When the plan is `AwaitingShow`, the caller reports
/// the outcome of `Show` to `finish_toggle_after_show`.
pub fn perform_main_window_toggle(
    state: &mut DesktopState,
    window_found: bool,
    visible: Result<bool, String>,
    transparency_level: u8,
) -> (plan: WidgetPlan)
    ensures
        (final(state)@, plan.commands@, plan.status@) == toggle_outcome(
            old(state)@,
            window_found,
            visible,
            transparency_level,
        ),
{
    if !window_found {
        let commands: Vec<WidgetCommand> = Vec::new();
        assert(commands@ =~= seq![]);
        return WidgetPlan { commands, status: StepStatus::Failed(missing_window()) };
    }
    state.counters.main_window_found = bump(state.counters.main_window_found);
    let ghost found = state@;
    let restores = if state.widget_is_hiding {
        true
    } else {
        match &visible {
            Err(e) => {
                let commands: Vec<WidgetCommand> = Vec::new();
                assert(commands@ =~= seq![]);
                return WidgetPlan { commands, status: StepStatus::Failed(e.clone()) };
            },
            Ok(shown) => !*shown || state.widget_is_transparent,
        }
    };
    assert(restores == toggle_restores(found, visible));
    if restores {
        let plan = restore_main_window(state, true, visible, transparency_level);
        if let StepStatus::Completed = plan.status {
            count_toggle(state);
        }
        plan
    } else if state.toggle_action == TRANSPARENT_WIDGET_ACTION {
        let commands = set_main_window_transparent(state, true, transparency_level, true);
        count_toggle(state);
        WidgetPlan { commands, status: StepStatus::Completed }
    } else {
        state.widget_is_hiding = true;
        let fade = fade_main_window(state, u8::MAX, 0, true, false);
        count_toggle(state);
        let mut commands: Vec<WidgetCommand> = Vec::new();
        commands.push(WidgetCommand::StartFade(fade));
        assert(commands@ =~= seq![WidgetCommand::StartFade(fade)]);
        WidgetPlan { commands, status: StepStatus::Completed }
    }
}

/// Outcome of `finish_toggle_after_show`.
pub open spec fn finish_toggle_outcome(s: DesktopModel, shown: Result<(), String>) -> (
    DesktopModel,
    Seq<WidgetCommand>,
    StatusView,
) {
    let (r, commands, status) = finish_restore_outcome(s, shown);
    (
        if status is Completed {
            with_toggle_counted(r)
        } else {
            r
        },
        commands,
        status,
    )
}

/// Completes a toggle whose restore ended with `Show`.
pub fn finish_toggle_after_show(state: &mut DesktopState, shown: Result<(), String>) -> (plan:
    WidgetPlan)
    ensures
        (final(state)@, plan.commands@, plan.status@) == finish_toggle_outcome(
            old(state)@,
            shown,
        ),
{
    let plan = finish_restore_after_show(state, shown);
    if let StepStatus::Completed = plan.status {
        count_toggle(state);
    }
    plan
}

/// Opacity to apply at once after the transparency level changed: only a
/// widget that is transparent right now takes the new level immediately.
pub fn live_transparency_opacity(state: &DesktopState, transparency_level: u8) -> (opacity:
    Option<u8>)
    ensures
        opacity == (if state.widget_is_transparent {
            Some(opacity_for_level(transparency_level))
        } else {
            None
        }),
{
    if state.widget_is_transparent {
        Some(transparency_opacity(transparency_level))
    } else {
        None
    }
}

} // verus!
