//! What the accent lifecycle never does, whatever happens around it.

use vstd::prelude::*;
use crate::accent::{
    job_of, AccentAction, AccentAfter, AccentInflight, AccentJob, AccentStep, Builders,
};
use crate::effect::{Call, Effect, TaskView};
use crate::settings::{AccentPair, AccentSnapshot, AppletConfig, ConfigWrite};
use crate::window::{Accent, SettingsView, WindowView};

verus! {

/// Every piece of background work is a compute, or the very task that the
/// write guard is held for.
pub open spec fn guarded(after: WindowView, task: TaskView) -> bool {
    forall|i: int|
        0 <= i < task.effects.len() ==> match #[trigger] task.effects[i] {
            Effect::ComputeAccent { source } => true,
            Effect::AccentTask { generation, job } => {
                &&& generation == after.accent.accent_write_generation
                &&& after.accent.accent_inflight matches Some(inflight) && job == job_of(inflight)
            },
            _ => false,
        }
}

/// Whether the answer to a call goes on with a step of the lifecycle.
pub open spec fn lifecycle_call(call: Call) -> bool {
    match call {
        Call::PlanAccent { .. } => true,
        Call::ReadAccents { .. } => true,
        Call::PersistChecked { .. } => true,
        _ => false,
    }
}

/// Every call reads or persists accents, or is answered to the lifecycle.
pub open spec fn calls_about_accents(task: TaskView) -> bool {
    forall|i: int|
        0 <= i < task.calls.len() ==> lifecycle_call(#[trigger] task.calls[i])
            || task.calls[i] is ReadAccentBaseline || task.calls[i] is Persist
}

/// A step that waits for an answer waits with no theme task in flight.
pub open spec fn steps_wait_on_the_ground(after: WindowView, task: TaskView) -> bool {
    forall|i: int|
        0 <= i < task.calls.len() && lifecycle_call(#[trigger] task.calls[i])
            ==> after.accent.accent_inflight is None
}

/// A step of the accent lifecycle touches nothing but the accent settings and
/// its own running state, and starts no work but its own.
pub open spec fn stays_within(before: WindowView, after: WindowView, task: TaskView) -> bool {
    &&& after == (WindowView {
        settings: SettingsView {
            config: AppletConfig {
                accent_enabled: after.settings.config.accent_enabled,
                accent_snapshot: after.settings.config.accent_snapshot,
                accent_last_written: after.settings.config.accent_last_written,
                ..before.settings.config
            },
            ..before.settings
        },
        accent: Accent {
            accent_handles: before.accent.accent_handles,
            ..after.accent
        },
        ..before
    })
    &&& before.accent.accent_write_generation < u64::MAX ==> before.accent.accent_write_generation
        <= after.accent.accent_write_generation <= before.accent.accent_write_generation + 1
    &&& guarded(after, task)
    &&& calls_about_accents(task)
    &&& before.accent.accent_inflight is None ==> steps_wait_on_the_ground(after, task)
}

/// Besides, the step does not switch the feature on, and keeps the record of
/// the user's own accents as it is.
pub open spec fn stays_quiet(before: WindowView, after: WindowView, task: TaskView) -> bool {
    &&& stays_within(before, after, task)
    &&& after.settings.config.accent_enabled ==> before.settings.config.accent_enabled
    &&& after.settings.config.accent_snapshot == before.settings.config.accent_snapshot
}

proof fn recompute_stays_quiet(window: WindowView)
    ensures
        stays_quiet(window, window.recompute_if_queued().0, window.recompute_if_queued().1),
        window.recompute_if_queued().0.accent.accent_write_generation
            == window.accent.accent_write_generation,
        window.recompute_if_queued().0.accent.accent_inflight == window.accent.accent_inflight,
{
}

proof fn flip_done_stays_quiet(window: WindowView, then_recompute: bool)
    ensures
        stays_quiet(
            window,
            window.flip_done(then_recompute).0,
            window.flip_done(then_recompute).1,
        ),
        window.flip_done(then_recompute).0.accent.accent_write_generation
            == window.accent.accent_write_generation,
        window.flip_done(then_recompute).0.accent.accent_inflight == window.accent.accent_inflight,
{
    recompute_stays_quiet(window);
}

proof fn spawn_stays_quiet(window: WindowView, inflight: AccentInflight)
    requires
        window.accent.accent_write_generation < u64::MAX,
    ensures
        stays_quiet(
            window,
            window.spawn_accent_task(inflight).0,
            window.spawn_accent_task(inflight).1,
        ),
{
}

proof fn disable_stays_quiet(window: WindowView, config: AppletConfig)
    requires
        config.accent_enabled ==> window.settings.config.accent_enabled,
        config == (AppletConfig {
            accent_enabled: config.accent_enabled,
            accent_last_written: config.accent_last_written,
            accent_snapshot: config.accent_snapshot,
            ..window.settings.config
        }),
    ensures
        stays_within(window, window.set_config(config).0, window.set_config(config).1),
        window.set_config(config).1.effects.len() == 0,
        window.set_config(config).0.accent == window.accent,
        window.set_config(config).0.settings.config.accent_enabled
            ==> window.settings.config.accent_enabled,
        config.accent_snapshot == window.settings.config.accent_snapshot ==> window.set_config(
            config,
        ).0.settings.config.accent_snapshot == window.settings.config.accent_snapshot,
{
}

proof fn try_enable_stays_quiet(window: WindowView, then_recompute: bool)
    requires
        window.accent.accent_write_generation < u64::MAX,
    ensures
        stays_quiet(
            window,
            window.try_enable_accent(then_recompute).0,
            window.try_enable_accent(then_recompute).1,
        ),
{
    flip_done_stays_quiet(window, then_recompute);
    if let Some(snapshot) = window.settings.config.accent_snapshot {
        let inflight = AccentInflight::EnableRestore { snapshot };
        spawn_stays_quiet(window, inflight);
        flip_done_stays_quiet(window.spawn_accent_task(inflight).0, then_recompute);
    }
}

/// The toggle of an active leader never switches the feature on by itself,
/// and never drops the record of the user's accents: both wait for what the
/// disk answers.
pub proof fn toggle_stays_quiet(window: WindowView, enabled: bool, then_recompute: bool)
    requires
        window.is_active_leader(),
        window.accent.accent_write_generation < u64::MAX,
    ensures
        stays_quiet(
            window,
            window.set_accent_enabled(enabled, then_recompute).0,
            window.set_accent_enabled(enabled, then_recompute).1,
        ),
{
    flip_done_stays_quiet(window, then_recompute);
    try_enable_stays_quiet(window, then_recompute);
    let config = window.disabled_config();
    disable_stays_quiet(window, config);
    let off = window.set_config(config).0;
    flip_done_stays_quiet(off, then_recompute);
    if let Some(snapshot) = window.settings.config.accent_snapshot {
        let inflight = AccentInflight::DisableRestore { snapshot };
        spawn_stays_quiet(off, inflight);
        flip_done_stays_quiet(off.spawn_accent_task(inflight).0, then_recompute);
    }
}

proof fn reconcile_stays_quiet(window: WindowView, at_completion: Option<bool>)
    requires
        window.is_active_leader(),
        window.accent.accent_write_generation < u64::MAX,
    ensures
        stays_quiet(
            window,
            window.reconcile_accent_after_task(at_completion).0,
            window.reconcile_accent_after_task(at_completion).1,
        ),
{
    let landed = WindowView {
        accent: Accent {
            accent_flip_requested: None,
            accent_disk_enabled_at_spawn: None,
            ..window.accent
        },
        ..window
    };
    recompute_stays_quiet(landed);
    toggle_stays_quiet(landed, window.desired_accent(at_completion), true);
}

proof fn settle_stays_quiet(window: WindowView, after: AccentAfter)
    requires
        window.is_active_leader(),
        window.accent.accent_write_generation < u64::MAX,
    ensures
        stays_quiet(window, window.settle_accent(after).0, window.settle_accent(after).1),
{
    recompute_stays_quiet(window);
    if let AccentAfter::Reconcile { disk_enabled } = after {
        reconcile_stays_quiet(window, disk_enabled);
    }
}

proof fn refuse_stays_quiet(window: WindowView, after: AccentAfter)
    requires
        window.is_active_leader(),
        window.accent.accent_write_generation < u64::MAX,
    ensures
        stays_quiet(window, window.refuse_enable(after).0, window.refuse_enable(after).1),
{
    settle_stays_quiet(window, after);
}

proof fn armed_stays_within(window: WindowView, after: AccentAfter)
    requires
        window.is_active_leader(),
        window.accent.accent_write_generation < u64::MAX,
    ensures
        stays_within(window, window.accent_armed(after).0, window.accent_armed(after).1),
        window.accent_armed(after).0.settings.config.accent_snapshot
            == window.settings.config.accent_snapshot,
{
    let on = window.with_config(
        AppletConfig { accent_enabled: true, ..window.settings.config },
    );
    settle_stays_quiet(on, after);
}

proof fn arm_stays_quiet(window: WindowView, after: AccentAfter)
    requires
        window.is_active_leader(),
        window.accent.accent_write_generation < u64::MAX,
    ensures
        stays_quiet(window, window.arm_accent_flag(after).0, window.arm_accent_flag(after).1),
        stays_quiet(window, window.arm_accent_enable(after).0, window.arm_accent_enable(after).1),
{
    armed_stays_within(window, after);
    settle_stays_quiet(window, after);
}

/// Capturing the live accents for an enable is quiet: it only asks the disk.
pub proof fn capture_stays_quiet(window: WindowView, accents: AccentSnapshot, after: AccentAfter)
    requires
        window.is_active_leader(),
        window.accent.accent_write_generation < u64::MAX,
    ensures
        stays_quiet(
            window,
            window.snapshot_for_enable(accents, after).0,
            window.snapshot_for_enable(accents, after).1,
        ),
{
    arm_stays_quiet(window, after);
}

/// Carrying a plan out never switches the feature on, and drops the record of
/// the user's accents only where the plan says that it is not needed.
pub proof fn plans_stay_within(window: WindowView, action: AccentAction, builders: Builders)
    requires
        window.is_active_leader(),
        window.accent.accent_write_generation < u64::MAX,
    ensures
        stays_within(
            window,
            window.execute_accent_action(action, builders).0,
            window.execute_accent_action(action, builders).1,
        ),
        window.execute_accent_action(action, builders).0.settings.config.accent_enabled
            ==> window.settings.config.accent_enabled,
        action != (AccentAction::Disarm { keep_snapshot: false }) ==> stays_quiet(
            window,
            window.execute_accent_action(action, builders).0,
            window.execute_accent_action(action, builders).1,
        ),
{
    match action {
        AccentAction::Write { light, dark, snapshot_now } => {
            let pair = AccentPair { light, dark };
            spawn_stays_quiet(
                window,
                AccentInflight::Write { builders, pair, previous: builders.accents },
            );
        },
        AccentAction::Disarm { keep_snapshot } => {
            let config = AppletConfig {
                accent_snapshot: if keep_snapshot {
                    window.settings.config.accent_snapshot
                } else {
                    None
                },
                ..window.disabled_config()
            };
            disable_stays_quiet(window, config);
        },
        AccentAction::Skip => {},
    }
}

proof fn roll_back_stays_quiet(
    window: WindowView,
    pair: AccentPair,
    previous: AccentSnapshot,
    disk_enabled: Option<bool>,
)
    requires
        window.is_active_leader(),
        window.accent.accent_write_generation < u64::MAX,
    ensures
        stays_quiet(
            window,
            window.roll_back(pair, previous, disk_enabled).0,
            window.roll_back(pair, previous, disk_enabled).1,
        ),
{
    let inflight = AccentInflight::Rollback { pair, previous };
    spawn_stays_quiet(window, inflight);
    if !window.accent.accent_handles {
        reconcile_stays_quiet(window.spawn_accent_task(inflight).0, disk_enabled);
    }
}

proof fn write_stays_quiet(
    window: WindowView,
    pair: AccentPair,
    previous: AccentSnapshot,
    success: bool,
    disk_enabled: Option<bool>,
)
    requires
        window.is_active_leader(),
        window.accent.accent_write_generation < u64::MAX,
    ensures
        stays_quiet(
            window,
            window.finish_accent_write(pair, previous, success, disk_enabled).0,
            window.finish_accent_write(pair, previous, success, disk_enabled).1,
        ),
{
    reconcile_stays_quiet(window, disk_enabled);
    roll_back_stays_quiet(window, pair, previous, disk_enabled);
}

proof fn rollback_stays_quiet(
    window: WindowView,
    pair: AccentPair,
    success: bool,
    disk_enabled: Option<bool>,
)
    requires
        window.is_active_leader(),
        window.accent.accent_write_generation < u64::MAX,
    ensures
        stays_quiet(
            window,
            window.finish_rollback(pair, success, disk_enabled).0,
            window.finish_rollback(pair, success, disk_enabled).1,
        ),
{
    reconcile_stays_quiet(window, disk_enabled);
    reconcile_stays_quiet(
        window.with_config(
            AppletConfig { accent_last_written: Some(pair), ..window.settings.config },
        ),
        disk_enabled,
    );
}

proof fn restores_stay_within(window: WindowView, success: bool, disk_enabled: Option<bool>)
    requires
        window.is_active_leader(),
        window.accent.accent_write_generation < u64::MAX,
    ensures
        stays_quiet(
            window,
            window.finish_enable_restore(success, disk_enabled).0,
            window.finish_enable_restore(success, disk_enabled).1,
        ),
        stays_within(
            window,
            window.finish_disable_restore(success, disk_enabled).0,
            window.finish_disable_restore(success, disk_enabled).1,
        ),
        window.finish_disable_restore(success, disk_enabled).0.settings.config.accent_enabled
            ==> window.settings.config.accent_enabled,
        !success ==> stays_quiet(
            window,
            window.finish_disable_restore(success, disk_enabled).0,
            window.finish_disable_restore(success, disk_enabled).1,
        ),
{
    let after = AccentAfter::Reconcile { disk_enabled };
    refuse_stays_quiet(window, after);
    arm_stays_quiet(window, after);
    reconcile_stays_quiet(window, disk_enabled);
    let config = AppletConfig { accent_snapshot: None, ..window.settings.config };
    disable_stays_quiet(window, config);
    reconcile_stays_quiet(window.set_config(config).0, disk_enabled);
}

/// The completion of a theme task never switches the feature on by itself,
/// and clears the record of the user's accents only if it was the restore of
/// a disable and the restore landed.
pub proof fn completions_stay_within(
    window: WindowView,
    generation: u64,
    success: bool,
    disk_enabled: Option<bool>,
)
    requires
        window.is_active_leader(),
        window.accent.accent_write_generation < u64::MAX,
    ensures
        stays_within(
            window,
            window.finish_accent_task(generation, success, disk_enabled).0,
            window.finish_accent_task(generation, success, disk_enabled).1,
        ),
        window.finish_accent_task(generation, success, disk_enabled).0.settings.config.accent_enabled
            ==> window.settings.config.accent_enabled,
        steps_wait_on_the_ground(
            window.finish_accent_task(generation, success, disk_enabled).0,
            window.finish_accent_task(generation, success, disk_enabled).1,
        ),
        !(success && window.accent.accent_inflight matches Some(
            AccentInflight::DisableRestore { .. },
        )) ==> stays_quiet(
            window,
            window.finish_accent_task(generation, success, disk_enabled).0,
            window.finish_accent_task(generation, success, disk_enabled).1,
        ),
{
    let landed = WindowView {
        accent: Accent { accent_inflight: None, ..window.accent },
        ..window
    };
    restores_stay_within(landed, success, disk_enabled);
    match window.accent.accent_inflight {
        Some(AccentInflight::Write { builders, pair, previous }) => {
            write_stays_quiet(landed, pair, previous, success, disk_enabled);
        },
        Some(AccentInflight::Rollback { pair, previous }) => {
            rollback_stays_quiet(landed, pair, success, disk_enabled);
        },
        _ => {},
    }
}

/// What a checked persist leads to: the feature goes on only once its flag is
/// on disk, and the record of the user's accents changes only by the answer
/// to its own persist.
pub proof fn answers_stay_within(window: WindowView, step: AccentStep, landed: bool)
    requires
        window.is_active_leader(),
        window.accent.accent_write_generation < u64::MAX,
    ensures
        stays_within(
            window,
            window.accent_persisted(step, landed).0,
            window.accent_persisted(step, landed).1,
        ),
        window.accent_persisted(step, landed).0.settings.config.accent_enabled
            && !window.settings.config.accent_enabled ==> step is ArmFlag && landed,
        window.accent_persisted(step, landed).0.settings.config.accent_snapshot
            != window.settings.config.accent_snapshot ==> step is WriteSnapshot
            || step is EnableSnapshot,
{
    let held = window.settings.config;
    match step {
        AccentStep::WriteSnapshot { builders, pair } => {
            let w = window.with_config(
                AppletConfig { accent_snapshot: Some(builders.accents), ..held },
            );
            spawn_stays_quiet(
                w,
                AccentInflight::Write { builders, pair, previous: builders.accents },
            );
        },
        AccentStep::WriteRecord { pair, previous, disk_enabled } => {
            let w = window.with_config(AppletConfig { accent_last_written: Some(pair), ..held });
            reconcile_stays_quiet(w, disk_enabled);
            roll_back_stays_quiet(window, pair, previous, disk_enabled);
        },
        AccentStep::RollbackRecord { disk_enabled } => {
            reconcile_stays_quiet(window, disk_enabled);
        },
        AccentStep::EnableSnapshot { snapshot, after } => {
            let captured = window.with_config(
                AppletConfig { accent_snapshot: Some(snapshot), ..held },
            );
            let dropped = window.with_config(AppletConfig { accent_snapshot: None, ..held });
            arm_stays_quiet(captured, after);
            refuse_stays_quiet(dropped, after);
        },
        AccentStep::ArmClear { after } => {
            let cleared = window.with_config(AppletConfig { accent_last_written: None, ..held });
            arm_stays_quiet(cleared, after);
            refuse_stays_quiet(window, after);
        },
        AccentStep::ArmFlag { after } => {
            armed_stays_within(window, after);
            refuse_stays_quiet(
                window.with_config(AppletConfig { accent_enabled: false, ..held }),
                after,
            );
        },
    }
}

/// A theme write over accents that are still the user's takes flight only
/// with those accents on record: a plan that says so waits for them to be
/// persisted, the answer that they landed starts the write, and the answer
/// that they did not starts nothing.
pub proof fn the_users_accents_are_recorded_first(
    window: WindowView,
    builders: Builders,
    pair: AccentPair,
    landed: bool,
)
    requires
        window.is_active_leader(),
        window.accent.accent_handles,
        window.settings.config_context,
    ensures
        ({
            let plan = AccentAction::Write {
                light: pair.light,
                dark: pair.dark,
                snapshot_now: true,
            };
            let (waiting, ask) = window.execute_accent_action(plan, builders);
            window.settings.config.accent_snapshot != Some(builders.accents) ==> {
                &&& waiting == window
                &&& ask.effects.len() == 0
                &&& ask.calls == seq![
                    Call::PersistChecked {
                        write: ConfigWrite::AccentSnapshot(Some(builders.accents)),
                        step: AccentStep::WriteSnapshot { builders, pair },
                    },
                ]
            }
        }),
        ({
            let (after, task) = window.accent_persisted(
                AccentStep::WriteSnapshot { builders, pair },
                landed,
            );
            &&& landed ==> after.settings.config.accent_snapshot == Some(builders.accents)
                && task.effects.len() == 1
            &&& !landed ==> task == TaskView::none() && after.accent == window.accent
        }),
{
}

/// What happened during a flight is caught up with in this order: what the
/// user asked for wins over what another process left on disk, and that wins
/// over what was held before. A flag on disk that is as it was at the start
/// of the flight is our own echo, and decides nothing.
pub proof fn the_users_toggle_wins(window: WindowView, at_completion: Option<bool>)
    ensures
        window.accent.accent_flip_requested matches Some(requested) ==> window.desired_accent(
            at_completion,
        ) == requested,
        window.accent.accent_flip_requested is None ==> {
            &&& at_completion is None || window.accent.accent_disk_enabled_at_spawn is None
                || at_completion == window.accent.accent_disk_enabled_at_spawn
                ==> window.desired_accent(at_completion) == window.settings.config.accent_enabled
            &&& at_completion is Some && window.accent.accent_disk_enabled_at_spawn is Some
                && at_completion != window.accent.accent_disk_enabled_at_spawn
                ==> window.desired_accent(at_completion) == at_completion->0
        },
{
}

/// Toggling to what the toggler shows already does nothing while a theme task
/// is in flight; toggling away from it is recorded and shown at once.
pub proof fn a_toggle_in_flight_is_recorded(window: WindowView, enabled: bool)
    requires
        window.is_active_leader(),
        window.accent.accent_inflight is Some,
    ensures
        enabled == window.accent_toggler_state() ==> window.set_accent_enabled(enabled, false) == (
            window,
            TaskView::none(),
        ),
        window.set_accent_enabled(enabled, false).0.accent_toggler_state() == enabled,
        window.set_accent_enabled(enabled, false).1.effects.len() == 0,
{
}

/// A disable forgets what was written and keeps the user's accents on record
/// until they are back: where they can be written, the restore takes flight
/// at once.
pub proof fn a_disable_restores_the_users_accents(window: WindowView, snapshot: AccentSnapshot)
    requires
        window.is_active_leader(),
        window.accent.accent_inflight is None,
        window.accent.accent_write_generation < u64::MAX,
        window.accent.accent_handles,
        window.settings.config.accent_enabled,
        window.settings.config.accent_snapshot == Some(snapshot),
    ensures
        ({
            let (after, task) = window.set_accent_enabled(false, false);
            &&& !after.settings.config.accent_enabled
            &&& after.settings.config.accent_last_written is None
            &&& after.settings.config.accent_snapshot == Some(snapshot)
            &&& after.accent.accent_inflight == Some(AccentInflight::DisableRestore { snapshot })
            &&& task.effects == seq![
                Effect::AccentTask {
                    generation: after.accent.accent_write_generation,
                    job: AccentJob::Restore(snapshot),
                },
            ]
        }),
{
}

} // verus!
