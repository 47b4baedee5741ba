//! What every step of the accent lifecycle is for, said of single operations
//! in terms of what goes in and what comes out.

use vstd::prelude::*;
use crate::accent::{
    accent_source, hue_answer, job_of, landed, poke_wrote, AccentAction, AccentAfter, AccentInflight, AccentJob, AccentStep, Builders,
};
use crate::effect::{Call, Effect, TaskView};
use crate::settings::{AccentPair, AccentSnapshot, AppletConfig, AppletSetting, ConfigWrite};
use crate::terms::{called_if, leads, roomy, started_if, tints};
use crate::window::{Accent, SettingsView, WindowView};
use std::path::PathBuf;

verus! {

/// The extraction of the accent of `window`'s applied wallpaper, where one is
/// known.
pub open spec fn tint_of_current(window: WindowView) -> Seq<Effect> {
    match window.gallery.current {
        Some(source) => started_if(tints(window), Effect::ComputeAccent { source }),
        None => Seq::empty(),
    }
}

/// The same window with other settings.
pub open spec fn set(window: WindowView, config: AppletConfig) -> WindowView {
    WindowView { settings: SettingsView { config, ..window.settings }, ..window }
}

/// A checked persist, and nothing else.
pub open spec fn persists_first(task: TaskView, write: ConfigWrite, step: AccentStep) -> bool {
    task.effects.len() == 0 && task.calls == seq![Call::PersistChecked { write, step }]
}

/// An accent is extracted from the wallpaper asked for, or the applied one,
/// exactly in a leader whose feature is on and whose themes can be written.
pub proof fn accents_are_extracted_where_they_can_be_used(window: WindowView, source: PathBuf)
    ensures
        window.start_accent_compute(source).calls.len() == 0,
        window.start_accent_compute(source).effects == started_if(
            tints(window),
            Effect::ComputeAccent { source },
        ),
        window.accent_compute_for_current().calls.len() == 0,
        window.accent_compute_for_current().effects == tint_of_current(window),
{
}

/// A write writes the pair it is recorded with over the builders it was
/// planned against; every restore puts back the very accents on record.
pub proof fn a_theme_task_does_what_is_recorded(
    builders: Builders,
    pair: AccentPair,
    accents: AccentSnapshot,
)
    ensures
        job_of(AccentInflight::Write { builders, pair, previous: accents }) == (AccentJob::Write {
            builders,
            light: pair.light,
            dark: pair.dark,
        }),
        job_of(AccentInflight::DisableRestore { snapshot: accents }) == AccentJob::Restore(accents),
        job_of(AccentInflight::EnableRestore { snapshot: accents }) == AccentJob::Restore(accents),
        job_of(AccentInflight::Rollback { pair, previous: accents }) == AccentJob::Restore(accents),
{
}

/// A theme task takes flight under a new generation and is the one recorded.
/// The flag on disk is read with it, except where it continues a flight, whose
/// reading it keeps. Without themes nothing takes flight.
pub proof fn a_theme_task_takes_flight(window: WindowView, inflight: AccentInflight)
    requires
        roomy(window),
    ensures
        ({
            let (after, task) = window.spawn_accent_task(inflight);
            let generation = (window.accent.accent_write_generation + 1) as u64;
            let continues = inflight is Rollback;
            &&& !window.accent.accent_handles ==> (after, task) == (window, TaskView::none())
            &&& window.accent.accent_handles ==> {
                &&& task.calls == called_if(
                    !continues && window.settings.config_context,
                    Call::ReadAccentBaseline,
                )
                &&& task.effects == seq![Effect::AccentTask { generation, job: job_of(inflight) }]
                &&& after == (WindowView {
                    accent: Accent {
                        accent_write_generation: generation,
                        accent_inflight: Some(inflight),
                        accent_disk_enabled_at_spawn: if continues {
                            window.accent.accent_disk_enabled_at_spawn
                        } else {
                            None
                        },
                        ..window.accent
                    },
                    ..window
                })
            }
        }),
{
}

/// The flag read with a flight is remembered as it was at its start.
pub proof fn the_flag_at_the_start_is_remembered(window: WindowView, enabled: Option<bool>)
    ensures
        window.note_accent_baseline(enabled) == (WindowView {
            accent: Accent { accent_disk_enabled_at_spawn: enabled, ..window.accent },
            ..window
        }),
{
}

/// A result that was dropped during a flight is made up for once, after it,
/// for whatever is applied by then.
pub proof fn a_dropped_result_is_made_up_for(window: WindowView)
    ensures
        ({
            let (after, task) = window.recompute_if_queued();
            let due = window.accent.accent_inflight is None
                && window.accent.accent_recompute_queued;
            &&& task.calls.len() == 0
            &&& due ==> task.effects == tint_of_current(window)
            &&& !due ==> task.effects.len() == 0 && after == window
            &&& due ==> after == (WindowView {
                accent: Accent { accent_recompute_queued: false, ..window.accent },
                ..window
            })
        }),
{
}

/// What the toggler shows: what the user asked for last, else on while an
/// enable puts the user's accents back, else what is in force.
pub proof fn the_toggler_shows_what_was_asked_for(window: WindowView)
    ensures
        window.accent.accent_flip_requested matches Some(asked) ==> window.accent_toggler_state()
            == asked,
        window.accent.accent_flip_requested is None ==> window.accent_toggler_state() == (
        window.settings.config.accent_enabled || (window.accent.accent_inflight is Some
            && window.accent.accent_inflight->0 is EnableRestore)),
{
}

/// Switching on, with no task in flight. Without themes the flag on disk is
/// pinned off; without a store nothing happens; with a record of the user's
/// accents from before those are put back first; otherwise the accents now in
/// the themes are the user's and are read.
pub proof fn switching_on_begins_with_the_users_accents(window: WindowView)
    requires
        leads(window),
        roomy(window),
        window.accent.accent_inflight is None,
        !window.settings.config.accent_enabled,
    ensures
        ({
            let (after, task) = window.set_accent_enabled(true, false);
            let context = window.settings.config_context;
            let kept = window.settings.config.accent_snapshot;
            &&& !after.settings.config.accent_enabled
            &&& !window.accent.accent_handles ==> after == window && task.effects.len() == 0
                && task.calls == called_if(
                context,
                Call::Persist(ConfigWrite::AccentEnabled(false)),
            )
            &&& window.accent.accent_handles && !context ==> (after, task) == (
                window,
                TaskView::none(),
            )
            &&& window.accent.accent_handles && context && kept is None ==> after == window
                && task.effects.len() == 0 && task.calls == seq![
                Call::ReadAccents { after: AccentAfter::Nothing },
            ]
            &&& window.accent.accent_handles && context && kept is Some ==> {
                &&& after.accent.accent_inflight == Some(
                    AccentInflight::EnableRestore { snapshot: kept->0 },
                )
                &&& task.effects == seq![
                    Effect::AccentTask {
                        generation: (window.accent.accent_write_generation + 1) as u64,
                        job: AccentJob::Restore(kept->0),
                    },
                ]
                &&& task.calls == seq![Call::ReadAccentBaseline]
            }
        }),
{
}

/// Switching off, with no task in flight: the feature is off and its record of
/// a write gone at once, in memory and on disk; the user's accents stay on
/// record, and are put back where the themes can be written.
pub proof fn switching_off_puts_the_users_accents_back(window: WindowView)
    requires
        leads(window),
        roomy(window),
        window.accent.accent_inflight is None,
        window.settings.config.accent_enabled,
    ensures
        ({
            let (after, task) = window.set_accent_enabled(false, false);
            let held = window.settings.config;
            let restores = held.accent_snapshot is Some && window.accent.accent_handles;
            &&& after.settings.config == (AppletConfig {
                accent_enabled: false,
                accent_last_written: None,
                ..held
            })
            &&& restores ==> after.accent.accent_inflight == Some(
                AccentInflight::DisableRestore { snapshot: held.accent_snapshot->0 },
            )
            &&& !restores ==> after.accent == window.accent
            &&& task.effects == started_if(
                restores,
                Effect::AccentTask {
                    generation: (window.accent.accent_write_generation + 1) as u64,
                    job: AccentJob::Restore(held.accent_snapshot->0),
                },
            )
            &&& window.settings.config_context ==> task.calls.len() > 0 && task.calls[0]
                == Call::Persist(ConfigWrite::AccentEnabled(false))
            &&& window.settings.config_context && held.accent_last_written is Some
                ==> task.calls.len() > 1 && task.calls[1] == Call::Persist(
                ConfigWrite::AccentLastWritten(None),
            )
            &&& !window.settings.config_context ==> task.calls.len() == 0
        }),
{
}

/// A toggle to what is in force does nothing; one during a flight that asks
/// for something else is remembered and pinned on disk, and starts nothing; a
/// follower's is a setting like any other.
pub proof fn other_toggles_wait_or_do_nothing(window: WindowView, enabled: bool)
    ensures
        leads(window) && window.accent.accent_inflight is None && enabled
            == window.settings.config.accent_enabled ==> window.set_accent_enabled(enabled, false)
            == (window, TaskView::none()),
        leads(window) && window.accent.accent_inflight is Some && enabled
            != window.accent_toggler_state() ==> {
            let (after, task) = window.set_accent_enabled(enabled, false);
            &&& after == (WindowView {
                accent: Accent { accent_flip_requested: Some(enabled), ..window.accent },
                ..window
            })
            &&& task.effects.len() == 0
            &&& task.calls == called_if(
                window.settings.config_context,
                Call::Persist(ConfigWrite::AccentEnabled(enabled)),
            )
        },
        leads(window) && window.accent.accent_inflight is Some && enabled
            == window.accent_toggler_state() ==> window.set_accent_enabled(enabled, false) == (
            window,
            TaskView::none(),
        ),
        !leads(window) && enabled == window.settings.config.accent_enabled
            ==> window.set_accent_enabled(enabled, false) == (window, TaskView::none()),
        !leads(window) && enabled != window.settings.config.accent_enabled
            ==> window.set_accent_enabled(enabled, false) == window.set_applet_setting(
            AppletSetting::AccentEnabled(enabled),
        ),
{
}

/// A toggle that catches up after a flight is the toggle of the user's, and
/// besides makes up for a result that was dropped, unless it started a flight
/// of its own or waits for an answer, which then does.
pub proof fn a_toggle_after_a_flight_recomputes_too(window: WindowView, enabled: bool)
    requires
        leads(window),
        roomy(window),
        window.accent.accent_inflight is None,
    ensures
        ({
            let (plain, task) = window.set_accent_enabled(enabled, false);
            let (after, both) = window.set_accent_enabled(enabled, true);
            let waits = task.calls.len() == 1 && task.calls[0] is ReadAccents;
            &&& waits ==> after == window && both.effects.len() == 0 && both.calls == seq![
                Call::ReadAccents { after: AccentAfter::Recompute },
            ]
            &&& !waits ==> after == plain.recompute_if_queued().0 && both == task.and(
                plain.recompute_if_queued().1,
            )
        }),
{
    let (plain, task) = window.set_accent_enabled(enabled, false);
    assert(task.and(TaskView::none()) == task);
    assert(TaskView::none().and(plain.recompute_if_queued().1) == plain.recompute_if_queued().1);
}

/// Once a flight is over, what is wanted is brought about: the user's last
/// word, else an edit another process made during the flight, else what is in
/// force. What was noted during the flight is forgotten.
pub proof fn a_landed_flight_is_caught_up_with(window: WindowView, on_disk: Option<bool>)
    requires
        window.accent.accent_inflight is None,
    ensures
        ({
            let asked = window.accent.accent_flip_requested;
            let at_start = window.accent.accent_disk_enabled_at_spawn;
            let wanted = if asked is Some {
                asked->0
            } else if at_start is Some && on_disk is Some && at_start->0 != on_disk->0 {
                on_disk->0
            } else {
                window.settings.config.accent_enabled
            };
            let landed = WindowView {
                accent: Accent {
                    accent_flip_requested: None,
                    accent_disk_enabled_at_spawn: None,
                    ..window.accent
                },
                ..window
            };
            &&& wanted == window.settings.config.accent_enabled
                ==> window.reconcile_accent_after_task(on_disk) == landed.recompute_if_queued()
            &&& wanted != window.settings.config.accent_enabled
                ==> window.reconcile_accent_after_task(on_disk) == landed.set_accent_enabled(
                wanted,
                true,
            )
        }),
{
}

/// Nothing is caught up with while a task is still in flight.
pub proof fn nothing_is_caught_up_with_in_flight(window: WindowView, on_disk: Option<bool>)
    requires
        window.accent.accent_inflight is Some,
    ensures
        window.reconcile_accent_after_task(on_disk) == (window, TaskView::none()),
{
}

/// What a step that had to wait goes on with.
pub proof fn a_step_goes_on_as_it_was_told(window: WindowView, on_disk: Option<bool>)
    ensures
        window.settle_accent(AccentAfter::Nothing) == (window, TaskView::none()),
        window.settle_accent(AccentAfter::Recompute) == window.recompute_if_queued(),
        window.settle_accent(AccentAfter::Reconcile { disk_enabled: on_disk })
            == window.reconcile_accent_after_task(on_disk),
{
}

/// When the flag of an enable has landed, the feature is on, and the accent of
/// the wallpaper on display is extracted at once: with a wallpaper known and
/// themes that can be written, the task starts exactly that extraction first.
pub proof fn an_enable_tints_what_is_shown(window: WindowView, after: AccentAfter)
    requires
        leads(window),
        window.accent.accent_handles,
    ensures
        ({
            let (done, task) = window.accent_persisted(AccentStep::ArmFlag { after }, true);
            &&& window.gallery.current matches Some(shown) ==> {
                &&& task.effects.len() > 0
                &&& task.effects[0] == (Effect::ComputeAccent { source: shown })
            }
            &&& after is Nothing ==> {
                &&& done == set(
                    window,
                    AppletConfig { accent_enabled: true, ..window.settings.config },
                )
                &&& task.calls.len() == 0
                &&& task.effects.len() == (if window.gallery.current is Some {
                    1int
                } else {
                    0int
                })
            }
        }),
{
    if let AccentAfter::Reconcile { disk_enabled } = after {
        let on = set(window, AppletConfig { accent_enabled: true, ..window.settings.config });
        let rest = on.reconcile_accent_after_task(disk_enabled).1;
        assert(window.accent_persisted(AccentStep::ArmFlag { after }, true).1.effects
            == tint_of_current(on) + rest.effects);
    }
}

/// An enable that completes goes on with what it was part of, in the state in
/// which the feature is on.
pub proof fn a_completed_enable_goes_on(window: WindowView, after: AccentAfter)
    ensures
        ({
            let on = set(window, AppletConfig { accent_enabled: true, ..window.settings.config });
            let (done, task) = window.accent_persisted(AccentStep::ArmFlag { after }, true);
            &&& done == on.settle_accent(after).0
            &&& task.calls == on.settle_accent(after).1.calls
            &&& task.effects == tint_of_current(on) + on.settle_accent(after).1.effects
        }),
{
}

/// The steps of an enable, each of which waits for the disk: the accents that
/// were read are recorded unless they are on record, a stale record of a write
/// is cleared, and the flag goes last.
pub proof fn an_enable_persists_step_by_step(
    window: WindowView,
    accents: AccentSnapshot,
    after: AccentAfter,
)
    requires
        window.settings.config_context,
        !window.settings.config.accent_enabled,
    ensures
        ({
            let (captured, ask) = window.snapshot_for_enable(accents, after);
            let (recorded, next) = window.accent_persisted(
                AccentStep::EnableSnapshot { snapshot: accents, after },
                true,
            );
            let (cleared, last) = window.accent_persisted(AccentStep::ArmClear { after }, true);
            let held = window.settings.config;
            let stale = held.accent_last_written is Some;
            &&& captured == window
            &&& held.accent_snapshot != Some(accents) ==> persists_first(
                ask,
                ConfigWrite::AccentSnapshot(Some(accents)),
                AccentStep::EnableSnapshot { snapshot: accents, after },
            )
            &&& held.accent_snapshot == Some(accents) ==> ask == next
            &&& recorded == set(
                window,
                AppletConfig { accent_snapshot: Some(accents), ..held },
            )
            &&& stale ==> persists_first(
                next,
                ConfigWrite::AccentLastWritten(None),
                AccentStep::ArmClear { after },
            )
            &&& !stale ==> persists_first(
                next,
                ConfigWrite::AccentEnabled(true),
                AccentStep::ArmFlag { after },
            )
            &&& cleared == set(window, AppletConfig { accent_last_written: None, ..held })
            &&& persists_first(
                last,
                ConfigWrite::AccentEnabled(true),
                AccentStep::ArmFlag { after },
            )
        }),
{
}

/// An enable whose persist did not land is refused: the feature stays off, the
/// flag on disk is pinned off, a snapshot that did not land is not on record,
/// and what the enable was part of goes on.
pub proof fn a_refused_enable_pins_the_flag_off(
    window: WindowView,
    accents: AccentSnapshot,
    after: AccentAfter,
)
    requires
        window.settings.config_context,
    ensures
        ({
            let off = Call::Persist(ConfigWrite::AccentEnabled(false));
            let held = window.settings.config;
            let unrecorded = set(window, AppletConfig { accent_snapshot: None, ..held });
            let disabled = set(window, AppletConfig { accent_enabled: false, ..held });
            let (w1, t1) = window.accent_persisted(
                AccentStep::EnableSnapshot { snapshot: accents, after },
                false,
            );
            let (w2, t2) = window.accent_persisted(AccentStep::ArmClear { after }, false);
            let (w3, t3) = window.accent_persisted(AccentStep::ArmFlag { after }, false);
            &&& w1 == unrecorded.settle_accent(after).0
            &&& t1.calls == seq![off] + unrecorded.settle_accent(after).1.calls
            &&& t1.effects == unrecorded.settle_accent(after).1.effects
            &&& w2 == window.settle_accent(after).0
            &&& t2.calls == seq![off] + window.settle_accent(after).1.calls
            &&& t2.effects == window.settle_accent(after).1.effects
            &&& w3 == disabled.settle_accent(after).0
            &&& t3.calls == seq![off] + disabled.settle_accent(after).1.calls
            &&& t3.effects == disabled.settle_accent(after).1.effects
        }),
{
}

/// An extracted accent counts only for the wallpaper that is applied by then.
/// It is planned against what is on record, or queued while a task is in
/// flight.
pub proof fn an_extracted_accent_is_planned(window: WindowView, source: PathBuf, hue: Option<u32>)
    ensures
        ({
            let (after, task) = window.finish_accent_compute(source, hue);
            let counts = leads(window) && window.gallery.current == Some(source);
            let held = window.settings.config;
            &&& task.effects.len() == 0
            &&& !counts ==> (after, task) == (window, TaskView::none())
            &&& counts && window.accent.accent_inflight is Some ==> task.calls.len() == 0 && after
                == (WindowView {
                accent: Accent { accent_recompute_queued: true, ..window.accent },
                ..window
            })
            &&& counts && window.accent.accent_inflight is None ==> after == window && task.calls
                == called_if(
                window.accent.accent_handles,
                Call::PlanAccent {
                    enabled: held.accent_enabled,
                    snapshot: held.accent_snapshot,
                    last_written: held.accent_last_written,
                    hue,
                },
            )
        }),
{
}

/// A planned write takes flight with the very colours planned, over the
/// accents it was compared with, once those are on record where they have to
/// be; without a store or without themes it does not.
pub proof fn a_planned_write_takes_flight(
    window: WindowView,
    builders: Builders,
    pair: AccentPair,
    snapshot_now: bool,
)
    requires
        roomy(window),
    ensures
        ({
            let plan = AccentAction::Write { light: pair.light, dark: pair.dark, snapshot_now };
            let (after, task) = window.execute_accent_action(plan, builders);
            let (landed, write) = window.accent_persisted(
                AccentStep::WriteSnapshot { builders, pair },
                true,
            );
            let usable = window.accent.accent_handles && window.settings.config_context;
            let waits = snapshot_now && window.settings.config.accent_snapshot != Some(
                builders.accents,
            );
            let flight = AccentInflight::Write { builders, pair, previous: builders.accents };
            let effects = seq![
                Effect::AccentTask {
                    generation: (window.accent.accent_write_generation + 1) as u64,
                    job: AccentJob::Write { builders, light: pair.light, dark: pair.dark },
                },
            ];
            &&& !usable ==> (after, task) == (window, TaskView::none())
            &&& usable && waits ==> after == window && persists_first(
                task,
                ConfigWrite::AccentSnapshot(Some(builders.accents)),
                AccentStep::WriteSnapshot { builders, pair },
            )
            &&& usable && !waits ==> after.accent.accent_inflight == Some(flight) && task.effects
                == effects && after.settings == window.settings
            &&& usable ==> {
                &&& landed.accent.accent_inflight == Some(flight)
                &&& write.effects == effects
                &&& landed.settings.config == (AppletConfig {
                    accent_snapshot: Some(builders.accents),
                    ..window.settings.config
                })
            }
            &&& window.accent_persisted(AccentStep::WriteSnapshot { builders, pair }, false) == (
                set(
                    window,
                    AppletConfig { accent_snapshot: None, ..window.settings.config },
                ),
                TaskView::none(),
            )
        }),
{
}

/// A plan that finds the accent changed by somebody else switches the feature
/// off and leaves the themes alone; the user's accents stay on record where
/// the plan says so. A plan that finds nothing to do does nothing.
pub proof fn a_foreign_accent_switches_the_feature_off(
    window: WindowView,
    builders: Builders,
    keep_snapshot: bool,
)
    requires
        leads(window),
    ensures
        ({
            let (after, task) = window.execute_accent_action(
                AccentAction::Disarm { keep_snapshot },
                builders,
            );
            let held = window.settings.config;
            &&& after == set(
                window,
                AppletConfig {
                    accent_enabled: false,
                    accent_last_written: None,
                    accent_snapshot: if keep_snapshot {
                        held.accent_snapshot
                    } else {
                        None
                    },
                    ..held
                },
            )
            &&& task.effects.len() == 0
            &&& window.settings.config_context && held.accent_enabled ==> task.calls.contains(
                Call::Persist(ConfigWrite::AccentEnabled(false)),
            )
            &&& window.execute_accent_action(AccentAction::Skip, builders) == (
                window,
                TaskView::none(),
            )
        }),
{
    let (after, task) = window.execute_accent_action(
        AccentAction::Disarm { keep_snapshot },
        builders,
    );
    if window.settings.config_context && window.settings.config.accent_enabled {
        assert(task.calls[0] == Call::Persist(ConfigWrite::AccentEnabled(false)));
    }
}

/// A write that landed is put on record before anything else; one that did
/// not is forgotten; one whose record cannot be kept is undone with the
/// accents it was written over.
pub proof fn a_landed_write_is_recorded_or_undone(
    window: WindowView,
    pair: AccentPair,
    previous: AccentSnapshot,
    on_disk: Option<bool>,
)
    requires
        roomy(window),
        window.accent.accent_inflight is None,
    ensures
        ({
            let held = window.settings.config;
            let (w1, t1) = window.finish_accent_write(pair, previous, true, on_disk);
            let undone = window.accent_persisted(
                AccentStep::WriteRecord { pair, previous, disk_enabled: on_disk },
                false,
            );
            let flight = AccentInflight::Rollback { pair, previous };
            &&& window.finish_accent_write(pair, previous, false, on_disk)
                == window.reconcile_accent_after_task(on_disk)
            &&& window.settings.config_context && held.accent_last_written != Some(pair) ==> w1
                == window && persists_first(
                t1,
                ConfigWrite::AccentLastWritten(Some(pair)),
                AccentStep::WriteRecord { pair, previous, disk_enabled: on_disk },
            )
            &&& window.settings.config_context && held.accent_last_written == Some(pair) ==> (
                w1,
                t1,
            ) == window.reconcile_accent_after_task(on_disk)
            &&& !window.settings.config_context ==> (w1, t1) == undone
            &&& window.accent.accent_handles ==> {
                &&& undone.0.accent.accent_inflight == Some(flight)
                &&& undone.1.effects == seq![
                    Effect::AccentTask {
                        generation: (window.accent.accent_write_generation + 1) as u64,
                        job: AccentJob::Restore(previous),
                    },
                ]
                &&& undone.1.calls.len() == 0
                &&& undone.0.settings == window.settings
                &&& undone.0.accent.accent_flip_requested == window.accent.accent_flip_requested
                &&& undone.0.accent.accent_disk_enabled_at_spawn
                    == window.accent.accent_disk_enabled_at_spawn
            }
            &&& window.accent_persisted(
                AccentStep::WriteRecord { pair, previous, disk_enabled: on_disk },
                true,
            ) == set(
                window,
                AppletConfig { accent_last_written: Some(pair), ..held },
            ).reconcile_accent_after_task(on_disk)
        }),
{
}

/// A write that could not be undone is on record as written, in memory and, as
/// far as that lands, on disk, so that it is still known to be ours.
pub proof fn a_write_that_stays_is_recorded(
    window: WindowView,
    pair: AccentPair,
    on_disk: Option<bool>,
)
    ensures
        ({
            let kept = set(
                window,
                AppletConfig { accent_last_written: Some(pair), ..window.settings.config },
            );
            let (after, task) = window.finish_rollback(pair, false, on_disk);
            &&& window.finish_rollback(pair, true, on_disk)
                == window.reconcile_accent_after_task(on_disk)
            &&& window.settings.config_context ==> after == kept && persists_first(
                task,
                ConfigWrite::AccentLastWritten(Some(pair)),
                AccentStep::RollbackRecord { disk_enabled: on_disk },
            )
            &&& !window.settings.config_context ==> (after, task)
                == kept.reconcile_accent_after_task(on_disk)
            &&& window.accent_persisted(
                AccentStep::RollbackRecord { disk_enabled: on_disk },
                true,
            ) == window.reconcile_accent_after_task(on_disk)
            &&& window.accent_persisted(
                AccentStep::RollbackRecord { disk_enabled: on_disk },
                false,
            ).0 == window.reconcile_accent_after_task(on_disk).0
            &&& window.accent_persisted(
                AccentStep::RollbackRecord { disk_enabled: on_disk },
                false,
            ).1.calls == seq![Call::Persist(ConfigWrite::AccentLastWritten(None))]
                + window.reconcile_accent_after_task(on_disk).1.calls
            &&& window.accent_persisted(
                AccentStep::RollbackRecord { disk_enabled: on_disk },
                false,
            ).1.effects == window.reconcile_accent_after_task(on_disk).1.effects
        }),
{
}

/// Once a disable has put the user's accents back, their record is dropped,
/// in memory and on disk; where it could not, the record is kept for the next
/// enable.
pub proof fn a_finished_disable_drops_the_record(window: WindowView, on_disk: Option<bool>)
    requires
        leads(window),
        window.accent.accent_inflight is None,
        window.settings.config.accent_snapshot is Some,
    ensures
        ({
            let dropped = set(
                window,
                AppletConfig { accent_snapshot: None, ..window.settings.config },
            );
            let (after, task) = window.finish_disable_restore(true, on_disk);
            let rest = dropped.reconcile_accent_after_task(on_disk);
            &&& after == rest.0
            &&& task.effects == rest.1.effects
            &&& task.calls == called_if(
                window.settings.config_context,
                Call::Persist(ConfigWrite::AccentSnapshot(None)),
            ) + rest.1.calls
            &&& window.finish_disable_restore(false, on_disk)
                == window.reconcile_accent_after_task(on_disk)
        }),
{
}

/// Once an enable has put the user's accents back it goes on to switch the
/// feature on; it is refused if it could not, or if the user has switched off
/// again meanwhile.
pub proof fn a_finished_restore_goes_on_to_enable(window: WindowView, on_disk: Option<bool>)
    ensures
        ({
            let after = AccentAfter::Reconcile { disk_enabled: on_disk };
            let withdrawn = window.accent.accent_flip_requested == Some(false);
            let refused = window.finish_enable_restore(false, on_disk);
            &&& !withdrawn ==> window.finish_enable_restore(true, on_disk)
                == window.arm_accent_enable(after)
            &&& withdrawn ==> window.finish_enable_restore(true, on_disk) == refused
            &&& refused.0 == window.settle_accent(after).0
            &&& refused.1.effects == window.settle_accent(after).1.effects
            &&& refused.1.calls == called_if(
                window.settings.config_context,
                Call::Persist(ConfigWrite::AccentEnabled(false)),
            ) + window.settle_accent(after).1.calls
            &&& !window.settings.config_context ==> window.arm_accent_enable(after)
                == window.settle_accent(after)
        }),
{
}

/// The completion of the task in flight takes it off the record and is dealt
/// with by what the task was for. A completion of any other task does nothing.
pub proof fn a_completion_belongs_to_its_flight(
    window: WindowView,
    generation: u64,
    success: bool,
    on_disk: Option<bool>,
)
    ensures
        ({
            let done = window.finish_accent_task(generation, success, on_disk);
            let landed = WindowView {
                accent: Accent { accent_inflight: None, ..window.accent },
                ..window
            };
            let current = leads(window) && generation == window.accent.accent_write_generation;
            &&& !current || window.accent.accent_inflight is None ==> done == (
                window,
                TaskView::none(),
            )
            &&& current ==> match window.accent.accent_inflight {
                Some(AccentInflight::Write { builders, pair, previous }) => done
                    == landed.finish_accent_write(pair, previous, success, on_disk),
                Some(AccentInflight::DisableRestore { snapshot }) => done
                    == landed.finish_disable_restore(success, on_disk),
                Some(AccentInflight::EnableRestore { snapshot }) => done
                    == landed.finish_enable_restore(success, on_disk),
                Some(AccentInflight::Rollback { pair, previous }) => done
                    == landed.finish_rollback(pair, success, on_disk),
                None => true,
            }
        }),
{
}

/// An enable of a feature that is on already persists no flag, and is complete
/// at once.
pub proof fn an_enable_of_what_is_on_is_complete(window: WindowView, after: AccentAfter)
    requires
        window.settings.config_context,
        window.settings.config.accent_enabled,
    ensures
        window.settings.config.accent_last_written is None ==> window.arm_accent_enable(after)
            == window.accent_persisted(AccentStep::ArmFlag { after }, true),
        window.settings.config.accent_last_written is Some ==> persists_first(
            window.arm_accent_enable(after).1,
            ConfigWrite::AccentLastWritten(None),
            AccentStep::ArmClear { after },
        ) && window.arm_accent_enable(after).0 == window,
        window.accent_persisted(AccentStep::ArmClear { after }, true) == set(
            window,
            AppletConfig { accent_last_written: None, ..window.settings.config },
        ).accent_persisted(AccentStep::ArmFlag { after }, true),
{
}

/// What the shell reports is passed on as it is: a write that landed, a poke
/// that wrote, a hue that was decoded. What failed did nothing, a grey
/// wallpaper is not a failure, and a thumbnail is read only where it is
/// cached.
pub proof fn reports_are_passed_on(
    error: String,
    wrote: bool,
    thumbnail: Option<PathBuf>,
    hue: Option<u32>,
)
    ensures
        landed(Ok(())) && !landed(Err(error)),
        poke_wrote(Ok(wrote)) == wrote,
        !poke_wrote(Err(error)),
        accent_source(true, thumbnail) == thumbnail,
        accent_source(false, thumbnail) is None,
        hue_answer(Ok(hue)) == Some(hue),
        hue_answer(Err(error)) is None,
{
}

} // verus!
