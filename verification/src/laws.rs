//! Properties of the library that relate several calls or hold of every input.

use vstd::prelude::*;
use crate::commands::{
    bounds_to_restore, decimal, edit_restores, edited_listener, edited_settings,
    popup_label, read_options, recorded_bounds,
};
use crate::desktop::{
    MAX_WINDOW_CHAIN, MouseHookEvent, chain_is_desktop_surface, chain_reaches_progman,
    click_is_eligible, examined_names, hook_outcome, no_app_message, ticks_between,
};
use crate::options::{
    DesktopToggleAction, Options, Settings, TRANSPARENT_WIDGET_ACTION, WindowBounds,
    default_options,
};
use crate::state::{DesktopModel, bumped};
use vstd::arithmetic::div_mod::{
    lemma_add_mod_noop, lemma_mod_equivalence, lemma_mod_pos_bound, lemma_mod_self_0,
    lemma_small_mod,
};
use crate::widget::{
    FADE_STEPS, Fade, StatusView, WidgetCommand, fade_opacity_at, finish_fade_outcome,
    finish_restore_outcome, finish_toggle_outcome, missing_window_message, opacity_for_level,
    restore_outcome, toggle_outcome, toggle_restores, with_new_fade,
};

verus! {

/// A fade starts at its starting opacity and ends at its target opacity.
pub proof fn fade_starts_and_ends_at_its_endpoints(from: u8, to: u8)
    ensures
        fade_opacity_at(from, to, 0) == from,
        fade_opacity_at(from, to, FADE_STEPS) == to,
{
    assert(fade_opacity_at(from, to, 0) == (2 * (from * 13 + to * 0) + 13) / 26);
    assert(from * 13 + to * 0 == 13 * from) by (nonlinear_arith);
    assert(fade_opacity_at(from, to, FADE_STEPS) == (2 * (from * 0 + to * 13) + 13) / 26);
    assert(from * 0 + to * 13 == 13 * to) by (nonlinear_arith);
}

/// Every frame of a fade lies between its starting and its target opacity.
pub proof fn fade_stays_between_its_endpoints(from: u8, to: u8, step: u16)
    requires
        step <= FADE_STEPS,
    ensures
        from <= to ==> from <= fade_opacity_at(from, to, step) <= to,
        to <= from ==> to <= fade_opacity_at(from, to, step) <= from,
{
    let rest = 13 - step;
    let w = from * rest + to * step;
    assert(fade_opacity_at(from, to, step) == (2 * w + 13) / 26);
    if from <= to {
        assert(13 * from <= w <= 13 * to) by (nonlinear_arith)
            requires
                w == from * rest + to * step,
                rest == 13 - step,
                0 <= step <= 13,
                from <= to,
        ;
    } else {
        assert(13 * to <= w <= 13 * from) by (nonlinear_arith)
            requires
                w == from * rest + to * step,
                rest == 13 - step,
                0 <= step <= 13,
                to <= from,
        ;
    }
}

/// The frames of a fade move steadily towards the target opacity.
pub proof fn fade_moves_steadily(from: u8, to: u8, earlier: u16, later: u16)
    requires
        earlier <= later <= FADE_STEPS,
    ensures
        from <= to ==> fade_opacity_at(from, to, earlier) <= fade_opacity_at(from, to, later),
        to <= from ==> fade_opacity_at(from, to, later) <= fade_opacity_at(from, to, earlier),
{
    let w1 = from * (13 - earlier) + to * earlier;
    let w2 = from * (13 - later) + to * later;
    assert(fade_opacity_at(from, to, earlier) == (2 * w1 + 13) / 26);
    assert(fade_opacity_at(from, to, later) == (2 * w2 + 13) / 26);
    assert(w2 - w1 == (to - from) * (later - earlier)) by (nonlinear_arith)
        requires
            w1 == from * (13 - earlier) + to * earlier,
            w2 == from * (13 - later) + to * later,
    ;
    if from == to {
        assert(w2 == w1) by (nonlinear_arith)
            requires
                from == to,
                w2 - w1 == (to - from) * (later - earlier),
        ;
    } else if from < to {
        assert((to - from) * (later - earlier) >= 0) by (nonlinear_arith)
            requires
                from <= to,
                earlier <= later,
        ;
        assert((2 * w1 + 13) / 26 <= (2 * w2 + 13) / 26) by (nonlinear_arith)
            requires
                w1 <= w2,
        ;
    } else {
        assert(w2 <= w1) by (nonlinear_arith)
            requires
                to <= from,
                earlier <= later,
                w2 - w1 == (to - from) * (later - earlier),
        ;
        assert((2 * w2 + 13) / 26 <= (2 * w1 + 13) / 26) by (nonlinear_arith)
            requires
                w2 <= w1,
        ;
    }
}

/// Transparency level 0 leaves the widget fully opaque and level 255 makes it
/// fully transparent.
pub proof fn transparency_level_extremes()
    ensures
        opacity_for_level(0) == 255,
        opacity_for_level(255) == 0,
{
}

/// Saving the options window without any edit changes nothing.
pub proof fn saving_no_edit_changes_nothing(settings: Settings)
    ensures
        edited_settings(settings, None, None, None, None, None) == settings,
        edit_restores(None, None) == 0,
{
}

/// Saving the same edits twice has the effect of saving them once.
pub proof fn saving_is_idempotent(
    settings: Settings,
    remember_window_bounds: Option<bool>,
    open_at_login: Option<bool>,
    toggle_on_desktop_double_click: Option<bool>,
    desktop_toggle_action: Option<DesktopToggleAction>,
    transparency_level: Option<u8>,
)
    ensures
        ({
            let once = edited_settings(
                settings,
                remember_window_bounds,
                open_at_login,
                toggle_on_desktop_double_click,
                desktop_toggle_action,
                transparency_level,
            );
            edited_settings(
                once,
                remember_window_bounds,
                open_at_login,
                toggle_on_desktop_double_click,
                desktop_toggle_action,
                transparency_level,
            ) == once
        }),
{
}

/// Once "remember window bounds" has been switched off, the next start
/// restores no window bounds, and closing the window records none.
pub proof fn forgetting_bounds_restores_none(
    settings: Settings,
    open_at_login: Option<bool>,
    toggle_on_desktop_double_click: Option<bool>,
    desktop_toggle_action: Option<DesktopToggleAction>,
    transparency_level: Option<u8>,
    position: Option<(i32, i32)>,
    size: Option<(u32, u32)>,
)
    ensures
        ({
            let saved = edited_settings(
                settings,
                Some(false),
                open_at_login,
                toggle_on_desktop_double_click,
                desktop_toggle_action,
                transparency_level,
            );
            &&& saved.window_bounds is None
            &&& bounds_to_restore(saved) is None
            &&& recorded_bounds(saved, position, size) is None
        }),
{
}

/// The bounds recorded when the window closes are the bounds it gets at the
/// next start.
pub proof fn recorded_bounds_are_restored(settings: Settings, x: i32, y: i32, width: u32, height: u32)
    requires
        settings.options.remember_window_bounds,
    ensures
        ({
            let recorded = recorded_bounds(settings, Some((x, y)), Some((width, height)));
            &&& recorded is Some
            &&& bounds_to_restore(recorded->0) == Some(WindowBounds { x, y, width, height })
            &&& recorded->0.options == settings.options
        }),
{
}

/// The options read back after a save are the options saved, once the
/// autostart registration has followed the saved "open at login" choice.
pub proof fn saved_options_read_back(
    settings: Settings,
    remember_window_bounds: Option<bool>,
    open_at_login: Option<bool>,
    toggle_on_desktop_double_click: Option<bool>,
    desktop_toggle_action: Option<DesktopToggleAction>,
    transparency_level: Option<u8>,
)
    ensures
        ({
            let saved = edited_settings(
                settings,
                remember_window_bounds,
                open_at_login,
                toggle_on_desktop_double_click,
                desktop_toggle_action,
                transparency_level,
            );
            read_options(saved, Some(saved.options.open_at_login)) == saved.options
        }),
{
}

/// Distinct popup numbers give distinct popup labels.
pub proof fn popup_labels_are_distinct(a: usize, b: usize)
    requires
        a != b,
    ensures
        popup_label(a) != popup_label(b),
{
    decimal_is_injective(a as nat, b as nat);
    if popup_label(a) == popup_label(b) {
        let prefix = "notion-calendar-popup-"@;
        assert(popup_label(a).skip(prefix.len() as int) =~= decimal(a as nat));
        assert(popup_label(b).skip(prefix.len() as int) =~= decimal(b as nat));
    }
}

proof fn decimal_is_nonempty(n: nat)
    ensures
        decimal(n).len() >= 1,
    decreases n,
{
    if n >= 10 {
        decimal_is_nonempty(n / 10);
    }
}

proof fn decimal_is_injective(a: nat, b: nat)
    ensures
        decimal(a) == decimal(b) ==> a == b,
    decreases a,
{
    reveal_strlit("0123456789");
    if decimal(a) == decimal(b) {
        if a < 10 && b < 10 {
            assert(decimal(a)[0] == decimal(b)[0]);
        } else if a < 10 {
            decimal_is_nonempty(b / 10);
            assert(decimal(b).len() >= 2);
        } else if b < 10 {
            decimal_is_nonempty(a / 10);
            assert(decimal(a).len() >= 2);
        } else {
            assert(decimal(a).last() == decimal(b).last());
            assert(decimal(a).drop_last() =~= decimal(a / 10));
            assert(decimal(b).drop_last() =~= decimal(b / 10));
            decimal_is_injective(a / 10, b / 10);
        }
    }
}

/// The listener's toggle settings follow the options: if they agreed with
/// the stored options before a save, they agree with the saved options after
/// it; start-up and reset make them agree.
pub proof fn listener_follows_options(
    s: DesktopModel,
    settings: Settings,
    remember_window_bounds: Option<bool>,
    open_at_login: Option<bool>,
    toggle_on_desktop_double_click: Option<bool>,
    desktop_toggle_action: Option<DesktopToggleAction>,
    transparency_level: Option<u8>,
)
    requires
        s.double_click_enabled == settings.options.toggle_on_desktop_double_click,
        s.toggle_action == settings.options.desktop_toggle_action.code(),
    ensures
        ({
            let saved = edited_settings(
                settings,
                remember_window_bounds,
                open_at_login,
                toggle_on_desktop_double_click,
                desktop_toggle_action,
                transparency_level,
            );
            let t = edited_listener(s, toggle_on_desktop_double_click, desktop_toggle_action);
            &&& t.double_click_enabled == saved.options.toggle_on_desktop_double_click
            &&& t.toggle_action == saved.options.desktop_toggle_action.code()
        }),
        !default_options().toggle_on_desktop_double_click,
        default_options().desktop_toggle_action.code() == crate::options::HIDE_WIDGET_ACTION,
{
}

/// A shown, opaque widget that is not fading out is sent away by a toggle:
/// it fades to its transparency level when the toggle action is
/// "transparent", and otherwise fades out and hides.
pub proof fn toggle_sends_shown_widget_away(s: DesktopModel, level: u8)
    requires
        !s.widget_is_hiding,
        !s.widget_is_transparent,
    ensures
        ({
            let (t, commands, status) = toggle_outcome(s, true, Ok(true), level);
            let g = bumped(s.fade_generation);
            &&& status is Completed
            &&& t.fade_generation == g
            &&& t.counters.toggle == bumped(s.counters.toggle)
            &&& if s.toggle_action == TRANSPARENT_WIDGET_ACTION {
                &&& t.widget_is_transparent && !t.widget_is_hiding
                &&& commands == seq![
                    WidgetCommand::StartFade(
                        Fade {
                            generation: g,
                            from: 255,
                            to: opacity_for_level(level),
                            hide_after_fade: false,
                            ignore_cursor_after_fade: false,
                        },
                    ),
                ]
            } else {
                &&& t.widget_is_hiding && !t.widget_is_transparent
                &&& commands == seq![
                    WidgetCommand::StartFade(
                        Fade {
                            generation: g,
                            from: 255,
                            to: 0,
                            hide_after_fade: true,
                            ignore_cursor_after_fade: false,
                        },
                    ),
                ]
            }
        }),
{
}

/// A restore leaves the widget shown and opaque: at once when the window is
/// visible, and after `Show` succeeded when it is not.
pub proof fn restore_brings_widget_back(s: DesktopModel, visible: bool, level: u8)
    ensures
        ({
            let (t, commands, status) = restore_outcome(s, true, Ok(visible), level);
            if visible {
                &&& status is Completed
                &&& !t.widget_is_hiding && !t.widget_is_transparent
            } else {
                let (u, _, finished) = finish_restore_outcome(t, Ok(()));
                &&& status is AwaitingShow
                &&& commands.last() == WidgetCommand::Show
                &&& finished is Completed
                &&& !u.widget_is_hiding && !u.widget_is_transparent
            }
        }),
{
}

/// Restoring a widget that has just been restored changes nothing and
/// starts no fade.
pub proof fn restore_is_idempotent(s: DesktopModel, visible: bool, level: u8, later_level: u8)
    ensures
        ({
            let (t, _, _) = restore_outcome(s, true, Ok(visible), level);
            let u = if visible {
                t
            } else {
                finish_restore_outcome(t, Ok(())).0
            };
            restore_outcome(u, true, Ok(true), later_level) == (u, Seq::<WidgetCommand>::empty(), StatusView::Completed)
        }),
{
    let (t, _, _) = restore_outcome(s, true, Ok(visible), level);
    let u = if visible {
        t
    } else {
        finish_restore_outcome(t, Ok(())).0
    };
    assert(restore_outcome(u, true, Ok(true), later_level).0 == u);
}

/// A toggle of a widget that is fading out, hidden or transparent brings it
/// back shown and opaque (after `Show` succeeded, when the window is hidden),
/// and counts one toggle.
pub proof fn toggle_brings_widget_back(s: DesktopModel, visible: bool, level: u8)
    requires
        toggle_restores(s, Ok(visible)),
    ensures
        ({
            let (t, _, status) = toggle_outcome(s, true, Ok(visible), level);
            if visible {
                &&& status is Completed
                &&& !t.widget_is_hiding && !t.widget_is_transparent
                &&& t.counters.toggle == bumped(s.counters.toggle)
            } else {
                let (u, _, finished) = finish_toggle_outcome(t, Ok(()));
                &&& status is AwaitingShow
                &&& finished is Completed
                &&& !u.widget_is_hiding && !u.widget_is_transparent
                &&& u.counters.toggle == bumped(s.counters.toggle)
            }
        }),
{
}

/// Two toggles in a row, from a shown and opaque widget, bring it back shown
/// and opaque, whatever the window then reports about its visibility.
pub proof fn toggling_twice_brings_widget_back(s: DesktopModel, level: u8, visible: bool, later_level: u8)
    requires
        !s.widget_is_hiding,
        !s.widget_is_transparent,
    ensures
        ({
            let (t, _, first) = toggle_outcome(s, true, Ok(true), level);
            let (u, _, second) = toggle_outcome(t, true, Ok(visible), later_level);
            let v = if visible {
                u
            } else {
                finish_toggle_outcome(u, Ok(())).0
            };
            &&& first is Completed
            &&& (t.widget_is_hiding || t.widget_is_transparent)
            &&& (second is Completed || second is AwaitingShow)
            &&& !v.widget_is_hiding && !v.widget_is_transparent
            &&& v.counters.toggle == bumped(bumped(s.counters.toggle))
        }),
{
    toggle_sends_shown_widget_away(s, level);
    let (t, _, _) = toggle_outcome(s, true, Ok(true), level);
    toggle_brings_widget_back(t, visible, later_level);
}

/// Without a main window, toggling and restoring fail and change nothing.
pub proof fn missing_window_changes_nothing(s: DesktopModel, visible: Result<bool, String>, level: u8)
    ensures
        toggle_outcome(s, false, visible, level) == (
            s,
            Seq::<WidgetCommand>::empty(),
            StatusView::Failed(missing_window_message()),
        ),
        restore_outcome(s, false, visible, level) == (
            s,
            Seq::<WidgetCommand>::empty(),
            StatusView::Failed(missing_window_message()),
        ),
{
}

/// Starting a fade makes every earlier fade stale, and a stale fade that
/// finishes changes nothing.
pub proof fn newer_fades_supersede_older_ones(s: DesktopModel, fade: Fade, window_found: bool)
    ensures
        with_new_fade(s).fade_generation != s.fade_generation,
        fade.generation == s.fade_generation ==> finish_fade_outcome(
            with_new_fade(s),
            fade,
            window_found,
        ) == (with_new_fade(s), Seq::<WidgetCommand>::empty()),
{
}

/// A click on a desktop icon never toggles the widget and cancels any
/// pending click.
pub proof fn icon_clicks_never_toggle(s: DesktopModel, event: MouseHookEvent)
    requires
        event.details.is_desktop_surface,
        event.icon_hit,
        !(event.message is Other),
    ensures
        ({
            let (t, schedule) = hook_outcome(s, event);
            &&& !schedule
            &&& t.pending_click is None
            &&& t.counters.icon_click_ignored == bumped(s.counters.icon_click_ignored)
            &&& t.counters.double_click == s.counters.double_click
        }),
{
}

/// While the desktop toggle is off, no click toggles the widget, and no
/// click is kept as the first half of a double-click.
pub proof fn disabled_listener_never_toggles(s: DesktopModel, event: MouseHookEvent)
    requires
        !s.double_click_enabled,
    ensures
        ({
            let (t, schedule) = hook_outcome(s, event);
            &&& !schedule
            &&& t.double_click_enabled == s.double_click_enabled
            &&& (!(event.message is Other) ==> t.pending_click is None)
        }),
{
}

/// Clicks anywhere but on the desktop surface never toggle the widget.
pub proof fn clicks_off_the_desktop_never_toggle(s: DesktopModel, event: MouseHookEvent)
    requires
        !event.details.is_desktop_surface,
    ensures
        ({
            let (t, schedule) = hook_outcome(s, event);
            &&& !schedule
            &&& (!(event.message is Other) ==> t.pending_click is None)
        }),
{
}

/// Two clicks on empty desktop space no further apart than the double-click
/// time toggle the widget once, on the second click, and leave nothing
/// pending.
pub proof fn two_quick_clicks_toggle_once(s: DesktopModel, first: MouseHookEvent, second: MouseHookEvent)
    requires
        s.double_click_enabled,
        s.pending_click is None,
        first.message is LeftButtonDown,
        second.message is LeftButtonDown,
        first.details.is_desktop_surface && !first.icon_hit,
        second.details.is_desktop_surface && !second.icon_hit,
        second.has_app,
        ticks_between(first.tick, second.tick) <= second.double_click_time,
    ensures
        ({
            let (t, first_schedules) = hook_outcome(s, first);
            let (u, second_schedules) = hook_outcome(t, second);
            &&& !first_schedules
            &&& t.pending_click == Some(first.tick)
            &&& second_schedules
            &&& u.pending_click is None
            &&& u.counters.double_click == bumped(s.counters.double_click)
            &&& u.counters.toggle_dispatch == bumped(s.counters.toggle_dispatch)
        }),
{
}

/// A second click that comes later than the double-click time does not
/// toggle; it becomes the new pending click.
pub proof fn slow_clicks_do_not_toggle(s: DesktopModel, first: MouseHookEvent, second: MouseHookEvent)
    requires
        s.double_click_enabled,
        s.pending_click is None,
        first.message is LeftButtonDown,
        second.message is LeftButtonDown,
        first.details.is_desktop_surface && !first.icon_hit,
        second.details.is_desktop_surface && !second.icon_hit,
        ticks_between(first.tick, second.tick) > second.double_click_time,
    ensures
        ({
            let (t, first_schedules) = hook_outcome(s, first);
            let (u, second_schedules) = hook_outcome(t, second);
            &&& !first_schedules
            &&& !second_schedules
            &&& u.pending_click == Some(second.tick)
        }),
{
}

/// Every toggle the hook dispatches counts one double-click and one
/// dispatch; a completed double-click without an application records why
/// nothing happened.
pub proof fn dispatches_are_counted(s: DesktopModel, event: MouseHookEvent)
    ensures
        ({
            let (t, schedule) = hook_outcome(s, event);
            &&& schedule ==> t.counters.double_click == bumped(s.counters.double_click)
                && t.counters.toggle_dispatch == bumped(s.counters.toggle_dispatch)
                && click_is_eligible(s, event)
            &&& schedule ==> event.has_app
            &&& (t.counters.double_click != s.counters.double_click && !event.has_app)
                ==> t.last_toggle_result == Some(no_app_message())
        }),
{
}

/// When the fade-out of a hiding toggle runs to its end, the window is hidden
/// and the widget is no longer fading out; a later fade makes it do nothing.
pub proof fn hiding_fade_ends_hidden(s: DesktopModel, level: u8)
    requires
        !s.widget_is_hiding,
        !s.widget_is_transparent,
        s.toggle_action != TRANSPARENT_WIDGET_ACTION,
    ensures
        ({
            let (t, commands, _) = toggle_outcome(s, true, Ok(true), level);
            let started = commands[0]->StartFade_0;
            let (u, closing) = finish_fade_outcome(t, started, true);
            let (v, late) = finish_fade_outcome(with_new_fade(t), started, true);
            &&& t.widget_is_hiding
            &&& closing == seq![WidgetCommand::Hide]
            &&& !u.widget_is_hiding
            &&& late == Seq::<WidgetCommand>::empty()
            &&& v.widget_is_hiding
        }),
{
    toggle_sends_shown_widget_away(s, level);
}

/// The widget is never fading out and transparent at once.
pub open spec fn widget_flags_consistent(s: DesktopModel) -> bool {
    !(s.widget_is_hiding && s.widget_is_transparent)
}

/// Every widget operation keeps the widget from fading out while
/// transparent: toggles, restores, the completions after `Show`, the end of
/// a fade, and the listener's handling of a mouse message.
pub proof fn widget_flags_stay_consistent(
    s: DesktopModel,
    window_found: bool,
    visible: Result<bool, String>,
    level: u8,
    shown: Result<(), String>,
    fade: Fade,
    event: MouseHookEvent,
)
    requires
        widget_flags_consistent(s),
    ensures
        widget_flags_consistent(toggle_outcome(s, window_found, visible, level).0),
        widget_flags_consistent(restore_outcome(s, window_found, visible, level).0),
        widget_flags_consistent(finish_restore_outcome(s, shown).0),
        widget_flags_consistent(finish_toggle_outcome(s, shown).0),
        widget_flags_consistent(finish_fade_outcome(s, fade, window_found).0),
        widget_flags_consistent(hook_outcome(s, event).0),
{
}

/// The process starts with a widget that is neither fading out nor
/// transparent.
pub proof fn initial_widget_flags_are_consistent(s: DesktopModel)
    requires
        s.is_initial(),
    ensures
        widget_flags_consistent(s),
        !s.widget_is_hiding && !s.widget_is_transparent,
{
}

/// The state after `n` popup requests in a row, and the labels they got, in
/// order (each request as `next_popup_window_label` states it).
pub open spec fn popup_requests(s: DesktopModel, n: nat) -> (DesktopModel, Seq<Seq<char>>)
    decreases n,
{
    if n == 0 {
        (s, seq![])
    } else {
        let (t, labels) = popup_requests(s, (n - 1) as nat);
        (
            DesktopModel { popup_window_id: bumped(t.popup_window_id), ..t },
            labels.push(popup_label(t.popup_window_id)),
        )
    }
}

/// Popup number `k` requests after number `id`, on the wrapping counter.
pub open spec fn popup_number_after(id: usize, k: nat) -> usize {
    ((id + k) % (usize::MAX + 1)) as usize
}

proof fn bumped_is_next_number(id: usize, k: nat)
    ensures
        bumped(popup_number_after(id, k)) == popup_number_after(id, k + 1),
{
    let m: int = usize::MAX + 1;
    let x: int = id + k;
    lemma_mod_pos_bound(x, m);
    lemma_add_mod_noop(x, 1, m);
    lemma_small_mod(1, m as nat);
    let r = x % m;
    if r + 1 < m {
        lemma_small_mod((r + 1) as nat, m as nat);
    } else {
        lemma_mod_self_0(m);
    }
}

proof fn popup_requests_numbering(s: DesktopModel, n: nat)
    ensures
        ({
            let (t, labels) = popup_requests(s, n);
            &&& labels.len() == n
            &&& t == (DesktopModel {
                popup_window_id: popup_number_after(s.popup_window_id, n),
                ..s
            })
            &&& forall|k: int|
                0 <= k < n ==> #[trigger] labels[k] == popup_label(
                    popup_number_after(s.popup_window_id, k as nat),
                )
        }),
    decreases n,
{
    if n == 0 {
        lemma_small_mod(s.popup_window_id as nat, (usize::MAX + 1) as nat);
    } else {
        popup_requests_numbering(s, (n - 1) as nat);
        bumped_is_next_number(s.popup_window_id, (n - 1) as nat);
        let (t, labels) = popup_requests(s, (n - 1) as nat);
        assert forall|k: int| 0 <= k < n implies #[trigger] labels.push(
            popup_label(t.popup_window_id),
        )[k] == popup_label(popup_number_after(s.popup_window_id, k as nat)) by {
            if k < n - 1 {
                assert(labels.push(popup_label(t.popup_window_id))[k] == labels[k]);
            }
        }
    }
}

/// Any number of popup requests in a row, as long as there are no more of
/// them than popup numbers, get pairwise distinct labels; the `k`-th gets the
/// number `k` places after the current one.
pub proof fn popup_requests_get_distinct_labels(s: DesktopModel, n: nat)
    requires
        n <= usize::MAX + 1,
    ensures
        ({
            let (t, labels) = popup_requests(s, n);
            &&& labels.len() == n
            &&& forall|k: int|
                0 <= k < n ==> #[trigger] labels[k] == popup_label(
                    popup_number_after(s.popup_window_id, k as nat),
                )
            &&& forall|j: int, k: int| 0 <= j < k < n ==> #[trigger] labels[j] != #[trigger] labels[k]
        }),
{
    popup_requests_numbering(s, n);
    let (t, labels) = popup_requests(s, n);
    let m: int = usize::MAX + 1;
    assert forall|j: int, k: int| 0 <= j < k < n implies #[trigger] labels[j] != #[trigger] labels[k] by {
        let a: int = s.popup_window_id + j;
        let b: int = s.popup_window_id + k;
        lemma_mod_equivalence(b, a, m);
        lemma_small_mod((b - a) as nat, m as nat);
        lemma_mod_pos_bound(a, m);
        lemma_mod_pos_bound(b, m);
        popup_labels_are_distinct(
            popup_number_after(s.popup_window_id, j as nat),
            popup_number_after(s.popup_window_id, k as nat),
        );
    }
}

/// The state after the hook has handled `events` in order, and for each
/// event whether it dispatched a toggle.
pub open spec fn hook_run(s: DesktopModel, events: Seq<MouseHookEvent>) -> (DesktopModel, Seq<bool>)
    decreases events.len(),
{
    if events.len() == 0 {
        (s, seq![])
    } else {
        let (t, dispatched) = hook_run(s, events.drop_last());
        let (u, schedule) = hook_outcome(t, events.last());
        (u, dispatched.push(schedule))
    }
}

/// How many of `flags` are set.
pub open spec fn count_set(flags: Seq<bool>) -> nat
    decreases flags.len(),
{
    if flags.len() == 0 {
        0
    } else {
        count_set(flags.drop_last()) + if flags.last() {
            1nat
        } else {
            0nat
        }
    }
}

/// Left-button presses on empty desktop space, each no later than the
/// double-click time after the one before.
pub open spec fn quick_desktop_clicks(events: Seq<MouseHookEvent>) -> bool {
    &&& forall|i: int|
        0 <= i < events.len() ==> {
            &&& (#[trigger] events[i]).message is LeftButtonDown
            &&& events[i].details.is_desktop_surface
            &&& !events[i].icon_hit
            &&& events[i].has_app
        }
    &&& forall|i: int|
        #![trigger events[i]]
        1 <= i < events.len() ==> ticks_between(events[i - 1].tick, events[i].tick)
            <= events[i].double_click_time
}

#[verifier::rlimit(40)]
/// Any number of quick clicks on empty desktop space toggle the widget on
/// every second click, so `n` clicks toggle it `n / 2` times; an odd last
/// click is left pending.
pub proof fn quick_clicks_toggle_every_second_time(s: DesktopModel, events: Seq<MouseHookEvent>)
    requires
        s.double_click_enabled,
        s.pending_click is None,
        quick_desktop_clicks(events),
    ensures
        ({
            let (t, dispatched) = hook_run(s, events);
            let n = events.len();
            &&& dispatched.len() == n
            &&& forall|i: int| 0 <= i < n ==> #[trigger] dispatched[i] == (i % 2 == 1)
            &&& count_set(dispatched) == n / 2
            &&& t.double_click_enabled
            &&& t.pending_click == if n % 2 == 1 {
                Some(events[n - 1].tick)
            } else {
                None
            }
        }),
    decreases events.len(),
{
    let n = events.len();
    if n > 0 {
        let prefix = events.drop_last();
        assert forall|i: int| 0 <= i < prefix.len() implies #[trigger] prefix[i] == events[i] by {}
        assert(quick_desktop_clicks(prefix)) by {
            assert forall|i: int| 1 <= i < prefix.len() implies ticks_between(
                prefix[i - 1].tick,
                #[trigger] prefix[i].tick,
            ) <= prefix[i].double_click_time by {
                assert(prefix[i - 1] == events[i - 1]);
                assert(events[i] == prefix[i]);
            }
        }
        quick_clicks_toggle_every_second_time(s, prefix);
        let (t, dispatched) = hook_run(s, prefix);
        let e = events.last();
        assert(e == events[n - 1]);
        if n >= 2 {
            assert(events[n - 1] == events[(n - 1) as int]);
            assert(prefix[n - 2] == events[n - 2]);
        }
        let (u, schedule) = hook_outcome(t, e);
        assert(schedule == ((n - 1) % 2 == 1));
        assert forall|i: int| 0 <= i < n implies #[trigger] dispatched.push(schedule)[i] == (i % 2
            == 1) by {
            if i < n - 1 {
                assert(dispatched.push(schedule)[i] == dispatched[i]);
            }
        }
        assert(dispatched.push(schedule).drop_last() =~= dispatched);
    }
}

/// Every option given to a save replaces the stored one, whatever was stored;
/// an option not given keeps its stored value. The stored window bounds are
/// dropped exactly when "remember window bounds" is given as off.
pub proof fn given_options_replace_stored_ones(
    settings: Settings,
    remember_window_bounds: Option<bool>,
    open_at_login: Option<bool>,
    toggle_on_desktop_double_click: Option<bool>,
    desktop_toggle_action: Option<DesktopToggleAction>,
    transparency_level: Option<u8>,
)
    ensures
        ({
            let saved = edited_settings(
                settings,
                remember_window_bounds,
                open_at_login,
                toggle_on_desktop_double_click,
                desktop_toggle_action,
                transparency_level,
            );
            let before = settings.options;
            let after = saved.options;
            &&& (remember_window_bounds matches Some(v) ==> after.remember_window_bounds == v)
            &&& (remember_window_bounds is None ==> after.remember_window_bounds
                == before.remember_window_bounds)
            &&& (open_at_login matches Some(v) ==> after.open_at_login == v)
            &&& (open_at_login is None ==> after.open_at_login == before.open_at_login)
            &&& (toggle_on_desktop_double_click matches Some(v)
                ==> after.toggle_on_desktop_double_click == v)
            &&& (toggle_on_desktop_double_click is None ==> after.toggle_on_desktop_double_click
                == before.toggle_on_desktop_double_click)
            &&& (desktop_toggle_action matches Some(v) ==> after.desktop_toggle_action == v)
            &&& (desktop_toggle_action is None ==> after.desktop_toggle_action
                == before.desktop_toggle_action)
            &&& (transparency_level matches Some(v) ==> after.transparency_level == v)
            &&& (transparency_level is None ==> after.transparency_level == before.transparency_level)
            &&& (remember_window_bounds == Some(false) ==> saved.window_bounds is None)
            &&& (remember_window_bounds != Some(false) ==> saved.window_bounds
                == settings.window_bounds)
        }),
{
}

/// A save hands the given toggle settings to the listener (the hiding action
/// as 0, the transparent one as 1) and changes nothing else of its state;
/// it brings the widget back, at most twice, exactly when the toggle is
/// switched off or its action set to hiding.
pub proof fn save_updates_listener_only_as_given(
    s: DesktopModel,
    toggle_on_desktop_double_click: Option<bool>,
    desktop_toggle_action: Option<DesktopToggleAction>,
)
    ensures
        ({
            let t = edited_listener(s, toggle_on_desktop_double_click, desktop_toggle_action);
            let restores = edit_restores(toggle_on_desktop_double_click, desktop_toggle_action);
            &&& (toggle_on_desktop_double_click matches Some(v) ==> t.double_click_enabled == v)
            &&& (toggle_on_desktop_double_click is None ==> t.double_click_enabled
                == s.double_click_enabled)
            &&& (desktop_toggle_action == Some(DesktopToggleAction::Hide) ==> t.toggle_action
                == 0)
            &&& (desktop_toggle_action == Some(DesktopToggleAction::Transparent)
                ==> t.toggle_action == 1)
            &&& (desktop_toggle_action is None ==> t.toggle_action == s.toggle_action)
            &&& (DesktopModel {
                double_click_enabled: s.double_click_enabled,
                toggle_action: s.toggle_action,
                ..t
            }) == s
            &&& (restores > 0 <==> (toggle_on_desktop_double_click == Some(false)
                || desktop_toggle_action == Some(DesktopToggleAction::Hide)))
            &&& restores <= 2
        }),
{
}

/// The options a reset goes back to: bounds remembered, no autostart, no
/// desktop toggle, hiding as the toggle action, and transparency level 64.
pub proof fn reset_gives_factory_defaults()
    ensures
        default_options().remember_window_bounds,
        !default_options().open_at_login,
        !default_options().toggle_on_desktop_double_click,
        default_options().desktop_toggle_action == DesktopToggleAction::Hide,
        default_options().transparency_level == 64,
{
}

/// Shown options come from the settings, except that "open at login" is
/// what the autostart registration says, and off when it cannot be read.
pub proof fn shown_options_follow_autostart(settings: Settings, autostart_enabled: Option<bool>)
    ensures
        ({
            let shown = read_options(settings, autostart_enabled);
            &&& (autostart_enabled matches Some(v) ==> shown.open_at_login == v)
            &&& (autostart_enabled is None ==> !shown.open_at_login)
            &&& (Options { open_at_login: settings.options.open_at_login, ..shown })
                == settings.options
        }),
{
}

/// A File Explorer window among the examined windows of the chain, wherever
/// it stands, means the click is not on the desktop surface.
pub proof fn explorer_windows_are_never_the_desktop(classes: Seq<String>, i: int)
    requires
        0 <= i < classes.len(),
        i < MAX_WINDOW_CHAIN,
        classes[i]@ == "CabinetWClass"@ || classes[i]@ == "ExploreWClass"@,
    ensures
        !chain_is_desktop_surface(classes),
{
    let names = examined_names(classes);
    assert(names[i] == classes[i]@);
}

/// A desktop window among the examined windows, with no File Explorer window
/// among them, means the click is on the desktop surface, whether or not the
/// program-manager window is one of them.
pub proof fn desktop_windows_make_the_surface(classes: Seq<String>, i: int)
    requires
        0 <= i < classes.len(),
        i < MAX_WINDOW_CHAIN,
        classes[i]@ == "Progman"@ || classes[i]@ == "WorkerW"@ || classes[i]@
            == "SHELLDLL_DefView"@ || classes[i]@ == "SysListView32"@,
        forall|j: int|
            0 <= j < classes.len() && j < MAX_WINDOW_CHAIN ==> #[trigger] classes[j]@
                != "CabinetWClass"@ && classes[j]@ != "ExploreWClass"@,
    ensures
        chain_is_desktop_surface(classes),
{
    let names = examined_names(classes);
    assert(names[i] == classes[i]@);
    assert forall|j: int| 0 <= j < names.len() implies !crate::desktop::is_explorer_class(
        #[trigger] names[j],
    ) by {
        assert(names[j] == classes[j]@);
    }
}

/// The program-manager flag says whether one of the examined windows is the
/// program-manager window.
pub proof fn progman_flag_names_an_examined_window(classes: Seq<String>)
    ensures
        chain_reaches_progman(classes) <==> exists|i: int|
            0 <= i < classes.len() && i < MAX_WINDOW_CHAIN && #[trigger] classes[i]@
                == "Progman"@,
{
    let names = examined_names(classes);
    if chain_reaches_progman(classes) {
        let i = choose|i: int| 0 <= i < names.len() && crate::desktop::is_progman_class(
            #[trigger] names[i],
        );
        assert(names[i] == classes[i]@);
    }
    if exists|i: int|
        0 <= i < classes.len() && i < MAX_WINDOW_CHAIN && #[trigger] classes[i]@ == "Progman"@ {
        let i = choose|i: int|
            0 <= i < classes.len() && i < MAX_WINDOW_CHAIN && #[trigger] classes[i]@
                == "Progman"@;
        assert(names[i] == classes[i]@);
        assert(crate::desktop::is_progman_class(names[i]));
    }
}

/// Windows beyond the first `MAX_WINDOW_CHAIN` do not change a
/// classification.
pub proof fn windows_beyond_the_limit_are_ignored(classes: Seq<String>)
    requires
        classes.len() > MAX_WINDOW_CHAIN,
    ensures
        chain_is_desktop_surface(classes) == chain_is_desktop_surface(
            classes.take(MAX_WINDOW_CHAIN as int),
        ),
        chain_reaches_progman(classes) == chain_reaches_progman(
            classes.take(MAX_WINDOW_CHAIN as int),
        ),
{
    assert(examined_names(classes) =~= examined_names(classes.take(MAX_WINDOW_CHAIN as int)));
}

/// Every fade that an operation starts is the latest fade once it returns, so
/// it runs, and it supersedes the fade that was latest before.
pub open spec fn fades_started_are_current(
    before: DesktopModel,
    after: DesktopModel,
    commands: Seq<WidgetCommand>,
) -> bool {
    forall|i: int|
        0 <= i < commands.len() && (#[trigger] commands[i]) is StartFade ==> {
            &&& commands[i]->StartFade_0.generation == after.fade_generation
            &&& after.fade_generation != before.fade_generation
        }
}

/// Toggles, restores and their completions after `Show` leave every fade
/// they start current; the fade back to opaque of a transparent widget and
/// the fade-in of a shown widget always run.
pub proof fn started_fades_are_current(
    s: DesktopModel,
    window_found: bool,
    visible: Result<bool, String>,
    level: u8,
    shown: Result<(), String>,
)
    ensures
        ({
            let (t, c, _) = toggle_outcome(s, window_found, visible, level);
            fades_started_are_current(s, t, c)
        }),
        ({
            let (t, c, _) = restore_outcome(s, window_found, visible, level);
            fades_started_are_current(s, t, c)
        }),
        ({
            let (t, c, _) = finish_restore_outcome(s, shown);
            fades_started_are_current(s, t, c)
        }),
        ({
            let (t, c, _) = finish_toggle_outcome(s, shown);
            fades_started_are_current(s, t, c)
        }),
{
    let (t, c, _) = restore_outcome(s, window_found, visible, level);
    assert(fades_started_are_current(s, t, c)) by {
        if window_found && s.widget_is_transparent {
            assert forall|i: int|
                0 <= i < c.len() && (#[trigger] c[i]) is StartFade implies c[i]->StartFade_0.generation
                == t.fade_generation && t.fade_generation != s.fade_generation by {
                assert(i == 1);
            }
        }
    }
    let found = DesktopModel {
        counters: crate::state::ListenerCounters {
            main_window_found: bumped(s.counters.main_window_found),
            ..s.counters
        },
        ..s
    };
    let (r, rc, _) = restore_outcome(found, true, visible, level);
    assert(fades_started_are_current(found, r, rc)) by {
        if found.widget_is_transparent {
            assert forall|i: int|
                0 <= i < rc.len() && (#[trigger] rc[i]) is StartFade implies rc[i]->StartFade_0.generation
                == r.fade_generation && r.fade_generation != found.fade_generation by {
                assert(i == 1);
            }
        }
    }
}

/// A restore of a transparent widget fades it from its transparency level
/// back to fully opaque and marks it opaque; a restore of an opaque, visible
/// widget starts no fade and changes nothing but the fading-out flag.
pub proof fn restore_fades_transparent_widget_back(s: DesktopModel, visible: bool, level: u8)
    ensures
        ({
            let (t, c, _) = restore_outcome(s, true, Ok(visible), level);
            &&& !t.widget_is_transparent
            &&& s.widget_is_transparent ==> {
                &&& c[0] == WidgetCommand::SetIgnoreCursorEvents(false)
                &&& c[1] is StartFade
                &&& c[1]->StartFade_0.from + level == 255
                &&& c[1]->StartFade_0.to == 255
                &&& !c[1]->StartFade_0.hide_after_fade
                &&& !c[1]->StartFade_0.ignore_cursor_after_fade
            }
            &&& (!s.widget_is_transparent && visible) ==> {
                &&& c.len() == 0
                &&& t == DesktopModel { widget_is_hiding: false, ..s }
            }
        }),
{
}

/// The end of a fade never changes whether the widget is transparent; a fade
/// that does not hide the window changes no state at all, and one that does
/// only ends the fading-out phase. Its closing commands are those it asked
/// for, and none when it is stale or the window is gone.
pub proof fn finishing_a_fade_keeps_transparency(s: DesktopModel, fade: Fade, window_found: bool)
    ensures
        ({
            let (t, c) = finish_fade_outcome(s, fade, window_found);
            let live = window_found && fade.generation == s.fade_generation;
            &&& t.widget_is_transparent == s.widget_is_transparent
            &&& !fade.hide_after_fade ==> t == s
            &&& (DesktopModel { widget_is_hiding: s.widget_is_hiding, ..t }) == s
            &&& (live && fade.hide_after_fade) ==> !t.widget_is_hiding
            &&& !live ==> t == s && c.len() == 0
            &&& c.contains(WidgetCommand::Hide) <==> (live && fade.hide_after_fade)
            &&& c.contains(WidgetCommand::SetIgnoreCursorEvents(true)) <==> (live
                && fade.ignore_cursor_after_fade)
            &&& forall|i: int| 0 <= i < c.len() ==> !((#[trigger] c[i]) is StartFade)
        }),
{
    let (t, c) = finish_fade_outcome(s, fade, window_found);
    if window_found && fade.generation == s.fade_generation {
        if fade.ignore_cursor_after_fade && fade.hide_after_fade {
            assert(c[0] == WidgetCommand::SetIgnoreCursorEvents(true));
            assert(c[1] == WidgetCommand::Hide);
        } else if fade.ignore_cursor_after_fade {
            assert(c[0] == WidgetCommand::SetIgnoreCursorEvents(true));
        } else if fade.hide_after_fade {
            assert(c[0] == WidgetCommand::Hide);
        }
    }
}

/// Toggles and restores touch only the widget's flags, the fade generation
/// and the toggle counters: never the listener settings, the pending click,
/// the popup number or the diagnostic texts.
pub proof fn widget_operations_leave_listener_alone(
    s: DesktopModel,
    window_found: bool,
    visible: Result<bool, String>,
    level: u8,
    shown: Result<(), String>,
)
    ensures
        ({
            let t = toggle_outcome(s, window_found, visible, level).0;
            let r = restore_outcome(s, window_found, visible, level).0;
            let f = finish_toggle_outcome(s, shown).0;
            &&& t.double_click_enabled == s.double_click_enabled && t.toggle_action
                == s.toggle_action && t.pending_click == s.pending_click && t.popup_window_id
                == s.popup_window_id && t.last_target == s.last_target && t.last_toggle_result
                == s.last_toggle_result && t.hook_installed == s.hook_installed
            &&& (DesktopModel {
                widget_is_transparent: s.widget_is_transparent,
                widget_is_hiding: s.widget_is_hiding,
                fade_generation: s.fade_generation,
                ..r
            }) == s
            &&& f.double_click_enabled == s.double_click_enabled && f.toggle_action
                == s.toggle_action && f.pending_click == s.pending_click
                && !f.widget_is_transparent == !s.widget_is_transparent
        }),
{
}

/// Each frame of a fade is the integer nearest to the linear interpolation
/// between its start and target opacities.
pub proof fn fade_frames_are_nearest_to_the_interpolation(from: u8, to: u8, step: u16)
    requires
        step <= FADE_STEPS,
    ensures
        ({
            let exact = from * (FADE_STEPS - step) + to * step;
            let frame = fade_opacity_at(from, to, step);
            -13 <= 2 * (13 * frame - exact) <= 13
        }),
{
    let exact = from * (13 - step) + to * step;
    assert(exact >= 0) by (nonlinear_arith)
        requires
            exact == from * (13 - step) + to * step,
            from >= 0,
            to >= 0,
            0 <= step <= 13,
    ;
    let frame = (2 * exact + 13) / 26;
    assert(-13 <= 2 * (13 * frame - exact) <= 13) by (nonlinear_arith)
        requires
            frame == (2 * exact + 13) / 26,
            exact >= 0,
    ;
}

/// When the window has been shown, the restore fades it in from fully
/// transparent to fully opaque and ends the fading-out phase; when showing
/// failed, nothing changes and the failure is reported.
pub proof fn shown_window_fades_in(s: DesktopModel, error: String)
    ensures
        ({
            let (t, c, status) = finish_restore_outcome(s, Ok(()));
            &&& status is Completed
            &&& c.len() == 1
            &&& c[0] is StartFade
            &&& c[0]->StartFade_0.from == 0 && c[0]->StartFade_0.to == 255
            &&& !c[0]->StartFade_0.hide_after_fade && !c[0]->StartFade_0.ignore_cursor_after_fade
            &&& !t.widget_is_hiding
            &&& t.widget_is_transparent == s.widget_is_transparent
        }),
        finish_restore_outcome(s, Err(error)) == (
            s,
            Seq::<WidgetCommand>::empty(),
            StatusView::Failed(error@),
        ),
{
}

/// The hook counts each left-button press (not double-click messages), each
/// click on the desktop surface and each ignored icon click, and records the
/// window chain of every left-button message; other messages change nothing.
pub proof fn hook_counts_and_records_clicks(s: DesktopModel, event: MouseHookEvent)
    ensures
        ({
            let (t, _) = hook_outcome(s, event);
            let examined = !(event.message is Other);
            let surface = event.details.is_desktop_surface;
            &&& !examined ==> t == s
            &&& examined ==> t.last_target == Some(event.details.target@)
            &&& t.counters.mouse_down == if event.message is LeftButtonDown {
                bumped(s.counters.mouse_down)
            } else {
                s.counters.mouse_down
            }
            &&& t.counters.desktop_surface_click == if examined && surface {
                bumped(s.counters.desktop_surface_click)
            } else {
                s.counters.desktop_surface_click
            }
            &&& t.counters.icon_click_ignored == if examined && surface && event.icon_hit {
                bumped(s.counters.icon_click_ignored)
            } else {
                s.counters.icon_click_ignored
            }
            &&& t.double_click_enabled == s.double_click_enabled
            &&& t.toggle_action == s.toggle_action
            &&& t.widget_is_transparent == s.widget_is_transparent
            &&& t.widget_is_hiding == s.widget_is_hiding
            &&& t.fade_generation == s.fade_generation
        }),
{
}

} // verus!
