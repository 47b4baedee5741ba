//! The lifecycle of the accent-from-wallpaper feature.
//!
//! Theme writes run in the background, one at a time, and everything that
//! arrives meanwhile waits for the completion: results are queued, toggles
//! are recorded, external flips are recognised by comparing the flag on disk
//! at the start of the flight with the flag at its end. The order of the
//! persists is what makes a crash harmless: the user's own accents are on
//! disk before anything is written over them, the record of a write follows
//! the write, and the flag that switches the feature on lands last.

use vstd::prelude::*;
use crate::accent::{
    accent_job, job_of, AccentAction, AccentAfter, AccentInflight, AccentStep, Builders,
};
use crate::effect::{Call, Effect, Task, TaskView};
use crate::paths::holds_path;
use crate::settings::{AccentPair, AccentSnapshot, AppletConfig, AppletSetting, ConfigWrite};
use crate::window::{Accent, Window, WindowView};
use std::path::PathBuf;

verus! {

/// What follows a flip: the queued recompute, or nothing.
pub open spec fn after_flip(then_recompute: bool) -> AccentAfter {
    if then_recompute {
        AccentAfter::Recompute
    } else {
        AccentAfter::Nothing
    }
}

/// A persist that must land before the step goes on.
pub open spec fn checked(write: ConfigWrite, step: AccentStep) -> TaskView {
    TaskView::call(Call::PersistChecked { write, step })
}

impl WindowView {
    /// Arms the extraction of an accent from `source`.
    pub open spec fn start_accent_compute(self, source: PathBuf) -> TaskView {
        if !self.is_active_leader() || !self.settings.config.accent_enabled
            || !self.accent.accent_handles {
            TaskView::none()
        } else {
            TaskView::effect(Effect::ComputeAccent { source })
        }
    }

    /// Arms the extraction of an accent from the applied wallpaper.
    pub open spec fn accent_compute_for_current(self) -> TaskView {
        match self.gallery.current {
            Some(current) => self.start_accent_compute(current),
            None => TaskView::none(),
        }
    }

    /// Pins the accent flag on disk, whatever it is in memory.
    pub open spec fn persist_accent_flag(self, enabled: bool) -> TaskView {
        if self.settings.config_context {
            TaskView::call(Call::Persist(ConfigWrite::AccentEnabled(enabled)))
        } else {
            TaskView::none()
        }
    }

    /// What the toggler shows.
    pub open spec fn accent_toggler_state(self) -> bool {
        match self.accent.accent_flip_requested {
            Some(requested) => requested,
            None => if self.accent.accent_inflight matches Some(
                AccentInflight::EnableRestore { .. },
            ) {
                true
            } else {
                self.settings.config.accent_enabled
            },
        }
    }

    /// A theme task takes flight. Unless it continues a flight, the flag on
    /// disk is read as the baseline of the flight.
    pub open spec fn spawn_accent_task(self, inflight: AccentInflight) -> (WindowView, TaskView) {
        if !self.accent.accent_handles {
            (self, TaskView::none())
        } else {
            let generation = (self.accent.accent_write_generation + 1) as u64;
            let task = TaskView::effect(Effect::AccentTask { generation, job: job_of(inflight) });
            let continues = inflight is Rollback;
            (
                WindowView {
                    accent: Accent {
                        accent_write_generation: generation,
                        accent_inflight: Some(inflight),
                        accent_disk_enabled_at_spawn: if continues {
                            self.accent.accent_disk_enabled_at_spawn
                        } else {
                            None
                        },
                        ..self.accent
                    },
                    ..self
                },
                if !continues && self.settings.config_context {
                    TaskView::call(Call::ReadAccentBaseline).and(task)
                } else {
                    task
                },
            )
        }
    }

    /// The baseline of the flight was read.
    pub open spec fn note_accent_baseline(self, enabled: Option<bool>) -> WindowView {
        WindowView {
            accent: Accent { accent_disk_enabled_at_spawn: enabled, ..self.accent },
            ..self
        }
    }

    /// The queued recompute is armed, unless a task is in flight.
    pub open spec fn recompute_if_queued(self) -> (WindowView, TaskView) {
        if self.accent.accent_inflight is None && self.accent.accent_recompute_queued {
            (
                WindowView {
                    accent: Accent { accent_recompute_queued: false, ..self.accent },
                    ..self
                },
                self.accent_compute_for_current(),
            )
        } else {
            (self, TaskView::none())
        }
    }

    /// A step that was part of a flip is done.
    pub open spec fn flip_done(self, then_recompute: bool) -> (WindowView, TaskView) {
        if then_recompute {
            self.recompute_if_queued()
        } else {
            (self, TaskView::none())
        }
    }

    /// The enable arm of the toggle.
    pub open spec fn try_enable_accent(self, then_recompute: bool) -> (WindowView, TaskView) {
        if !self.accent.accent_handles {
            let refusal = self.persist_accent_flag(false);
            let (w, rest) = self.flip_done(then_recompute);
            (w, refusal.and(rest))
        } else if !self.settings.config_context {
            self.flip_done(then_recompute)
        } else {
            match self.settings.config.accent_snapshot {
                Some(snapshot) => {
                    let (w, task) = self.spawn_accent_task(
                        AccentInflight::EnableRestore { snapshot },
                    );
                    let (w2, rest) = w.flip_done(then_recompute);
                    (w2, task.and(rest))
                },
                None => (
                    self,
                    TaskView::call(Call::ReadAccents { after: after_flip(then_recompute) }),
                ),
            }
        }
    }

    /// The settings a disable leaves: off, nothing recorded as written, the
    /// user's accents kept.
    pub open spec fn disabled_config(self) -> AppletConfig {
        AppletConfig {
            accent_enabled: false,
            accent_last_written: None,
            ..self.settings.config
        }
    }

    /// The accent toggle.
    pub open spec fn set_accent_enabled(self, enabled: bool, then_recompute: bool) -> (
        WindowView,
        TaskView,
    ) {
        if !self.is_active_leader() {
            if enabled == self.settings.config.accent_enabled {
                (self, TaskView::none())
            } else {
                self.set_applet_setting(AppletSetting::AccentEnabled(enabled))
            }
        } else if self.accent.accent_inflight is Some {
            if enabled == self.accent_toggler_state() {
                (self, TaskView::none())
            } else {
                (
                    WindowView {
                        accent: Accent {
                            accent_flip_requested: Some(enabled),
                            ..self.accent
                        },
                        ..self
                    },
                    self.persist_accent_flag(enabled),
                )
            }
        } else if enabled == self.settings.config.accent_enabled {
            self.flip_done(then_recompute)
        } else if enabled {
            self.try_enable_accent(then_recompute)
        } else {
            let (off, persisted) = self.set_config(self.disabled_config());
            match self.settings.config.accent_snapshot {
                Some(snapshot) if self.accent.accent_handles => {
                    let (w, task) = off.spawn_accent_task(
                        AccentInflight::DisableRestore { snapshot },
                    );
                    let (w2, rest) = w.flip_done(then_recompute);
                    (w2, persisted.and(task).and(rest))
                },
                _ => {
                    let (w, rest) = off.flip_done(then_recompute);
                    (w, persisted.and(rest))
                },
            }
        }
    }

    /// The state of the flag wanted after a flight: what the user asked for
    /// during it, else what an external edit left on disk during it, else
    /// what it was.
    pub open spec fn desired_accent(self, at_completion: Option<bool>) -> bool {
        match (
            self.accent.accent_flip_requested,
            self.accent.accent_disk_enabled_at_spawn,
            at_completion,
        ) {
            (Some(requested), _, _) => requested,
            (None, Some(spawn), Some(completion)) => if spawn != completion {
                completion
            } else {
                self.settings.config.accent_enabled
            },
            _ => self.settings.config.accent_enabled,
        }
    }

    /// What was deferred during a flight is caught up with, once the flight
    /// is over.
    pub open spec fn reconcile_accent_after_task(self, at_completion: Option<bool>) -> (
        WindowView,
        TaskView,
    ) {
        if self.accent.accent_inflight is Some {
            (self, TaskView::none())
        } else {
            let desired = self.desired_accent(at_completion);
            let landed = WindowView {
                accent: Accent {
                    accent_flip_requested: None,
                    accent_disk_enabled_at_spawn: None,
                    ..self.accent
                },
                ..self
            };
            if desired != landed.settings.config.accent_enabled {
                landed.set_accent_enabled(desired, true)
            } else {
                landed.recompute_if_queued()
            }
        }
    }

    /// A step of the lifecycle is done; what follows it is started.
    pub open spec fn settle_accent(self, after: AccentAfter) -> (WindowView, TaskView) {
        match after {
            AccentAfter::Nothing => (self, TaskView::none()),
            AccentAfter::Recompute => self.recompute_if_queued(),
            AccentAfter::Reconcile { disk_enabled } => self.reconcile_accent_after_task(
                disk_enabled,
            ),
        }
    }

    /// An enable is refused: the flag is pinned off on disk.
    pub open spec fn refuse_enable(self, after: AccentAfter) -> (WindowView, TaskView) {
        let (w, rest) = self.settle_accent(after);
        (w, self.persist_accent_flag(false).and(rest))
    }

    /// The last step of an enable, once the flag is on disk.
    pub open spec fn accent_armed(self, after: AccentAfter) -> (WindowView, TaskView) {
        let on = self.with_config(
            AppletConfig { accent_enabled: true, ..self.settings.config },
        );
        let (w, rest) = on.settle_accent(after);
        (w, on.accent_compute_for_current().and(rest))
    }

    /// The flag of an enable is flipped on.
    pub open spec fn arm_accent_flag(self, after: AccentAfter) -> (WindowView, TaskView) {
        if self.settings.config.accent_enabled {
            self.accent_armed(after)
        } else {
            (
                self,
                checked(ConfigWrite::AccentEnabled(true), AccentStep::ArmFlag { after }),
            )
        }
    }

    /// The tail of an enable.
    pub open spec fn arm_accent_enable(self, after: AccentAfter) -> (WindowView, TaskView) {
        if !self.settings.config_context {
            self.settle_accent(after)
        } else if self.settings.config.accent_last_written is None {
            self.arm_accent_flag(after)
        } else {
            (
                self,
                checked(ConfigWrite::AccentLastWritten(None), AccentStep::ArmClear { after }),
            )
        }
    }

    /// The live accents were read for an enable.
    pub open spec fn snapshot_for_enable(
        self,
        snapshot: AccentSnapshot,
        after: AccentAfter,
    ) -> (WindowView, TaskView) {
        if self.settings.config.accent_snapshot == Some(snapshot) {
            self.arm_accent_enable(after)
        } else {
            (
                self,
                checked(
                    ConfigWrite::AccentSnapshot(Some(snapshot)),
                    AccentStep::EnableSnapshot { snapshot, after },
                ),
            )
        }
    }

    /// A computed accent arrived.
    pub open spec fn finish_accent_compute(self, source: PathBuf, hue: Option<u32>) -> (
        WindowView,
        TaskView,
    ) {
        if !self.is_active_leader() || self.gallery.current != Some(source) {
            (self, TaskView::none())
        } else if self.accent.accent_inflight is Some {
            (
                WindowView {
                    accent: Accent { accent_recompute_queued: true, ..self.accent },
                    ..self
                },
                TaskView::none(),
            )
        } else if !self.accent.accent_handles {
            (self, TaskView::none())
        } else {
            (
                self,
                TaskView::call(
                    Call::PlanAccent {
                        enabled: self.settings.config.accent_enabled,
                        snapshot: self.settings.config.accent_snapshot,
                        last_written: self.settings.config.accent_last_written,
                        hue,
                    },
                ),
            )
        }
    }

    /// A theme write takes flight over the accents the plan compared.
    pub open spec fn spawn_accent_write(self, builders: Builders, pair: AccentPair) -> (
        WindowView,
        TaskView,
    ) {
        self.spawn_accent_task(
            AccentInflight::Write { builders, pair, previous: builders.accents },
        )
    }

    /// A plan is carried out.
    pub open spec fn execute_accent_action(self, action: AccentAction, builders: Builders) -> (
        WindowView,
        TaskView,
    ) {
        match action {
            AccentAction::Write { light, dark, snapshot_now } => {
                let pair = AccentPair { light, dark };
                if !self.accent.accent_handles || !self.settings.config_context {
                    (self, TaskView::none())
                } else if snapshot_now && self.settings.config.accent_snapshot != Some(
                    builders.accents,
                ) {
                    (
                        self,
                        checked(
                            ConfigWrite::AccentSnapshot(Some(builders.accents)),
                            AccentStep::WriteSnapshot { builders, pair },
                        ),
                    )
                } else {
                    self.spawn_accent_write(builders, pair)
                }
            },
            AccentAction::Disarm { keep_snapshot } => self.set_config(
                AppletConfig {
                    accent_snapshot: if keep_snapshot {
                        self.settings.config.accent_snapshot
                    } else {
                        None
                    },
                    ..self.disabled_config()
                },
            ),
            AccentAction::Skip => (self, TaskView::none()),
        }
    }

    /// A theme write completed.
    pub open spec fn finish_accent_write(
        self,
        pair: AccentPair,
        previous: AccentSnapshot,
        success: bool,
        disk_enabled: Option<bool>,
    ) -> (WindowView, TaskView) {
        if !success {
            self.reconcile_accent_after_task(disk_enabled)
        } else if !self.settings.config_context {
            self.roll_back(pair, previous, disk_enabled)
        } else if self.settings.config.accent_last_written == Some(pair) {
            self.reconcile_accent_after_task(disk_enabled)
        } else {
            (
                self,
                checked(
                    ConfigWrite::AccentLastWritten(Some(pair)),
                    AccentStep::WriteRecord { pair, previous, disk_enabled },
                ),
            )
        }
    }

    /// A theme write without its record is undone.
    pub open spec fn roll_back(
        self,
        pair: AccentPair,
        previous: AccentSnapshot,
        disk_enabled: Option<bool>,
    ) -> (WindowView, TaskView) {
        let (w, task) = self.spawn_accent_task(AccentInflight::Rollback { pair, previous });
        let (w2, rest) = w.reconcile_accent_after_task(disk_enabled);
        (w2, task.and(rest))
    }

    /// The undoing of a theme write completed.
    pub open spec fn finish_rollback(
        self,
        pair: AccentPair,
        success: bool,
        disk_enabled: Option<bool>,
    ) -> (WindowView, TaskView) {
        if success {
            self.reconcile_accent_after_task(disk_enabled)
        } else {
            let w = self.with_config(
                AppletConfig { accent_last_written: Some(pair), ..self.settings.config },
            );
            if self.settings.config_context {
                (
                    w,
                    checked(
                        ConfigWrite::AccentLastWritten(Some(pair)),
                        AccentStep::RollbackRecord { disk_enabled },
                    ),
                )
            } else {
                w.reconcile_accent_after_task(disk_enabled)
            }
        }
    }

    /// The restore of a disable completed.
    pub open spec fn finish_disable_restore(self, success: bool, disk_enabled: Option<bool>) -> (
        WindowView,
        TaskView,
    ) {
        if success {
            let (w, persisted) = self.set_config(
                AppletConfig { accent_snapshot: None, ..self.settings.config },
            );
            let (w2, rest) = w.reconcile_accent_after_task(disk_enabled);
            (w2, persisted.and(rest))
        } else {
            self.reconcile_accent_after_task(disk_enabled)
        }
    }

    /// The restore of an enable completed.
    pub open spec fn finish_enable_restore(self, success: bool, disk_enabled: Option<bool>) -> (
        WindowView,
        TaskView,
    ) {
        let after = AccentAfter::Reconcile { disk_enabled };
        if !success || self.accent.accent_flip_requested == Some(false) {
            self.refuse_enable(after)
        } else {
            self.arm_accent_enable(after)
        }
    }

    /// A theme task completed.
    pub open spec fn finish_accent_task(
        self,
        generation: u64,
        success: bool,
        disk_enabled: Option<bool>,
    ) -> (WindowView, TaskView) {
        if !self.is_active_leader() || generation != self.accent.accent_write_generation {
            (self, TaskView::none())
        } else {
            let landed = WindowView {
                accent: Accent { accent_inflight: None, ..self.accent },
                ..self
            };
            match self.accent.accent_inflight {
                None => (self, TaskView::none()),
                Some(AccentInflight::Write { builders, pair, previous }) =>
                    landed.finish_accent_write(pair, previous, success, disk_enabled),
                Some(AccentInflight::DisableRestore { snapshot }) =>
                    landed.finish_disable_restore(success, disk_enabled),
                Some(AccentInflight::EnableRestore { snapshot }) =>
                    landed.finish_enable_restore(success, disk_enabled),
                Some(AccentInflight::Rollback { pair, previous }) => landed.finish_rollback(
                    pair,
                    success,
                    disk_enabled,
                ),
            }
        }
    }

    /// A checked persist was answered.
    pub open spec fn accent_persisted(self, step: AccentStep, landed: bool) -> (
        WindowView,
        TaskView,
    ) {
        match step {
            AccentStep::WriteSnapshot { builders, pair } => if landed {
                self.with_config(
                    AppletConfig {
                        accent_snapshot: Some(builders.accents),
                        ..self.settings.config
                    },
                ).spawn_accent_write(builders, pair)
            } else {
                (
                    self.with_config(
                        AppletConfig { accent_snapshot: None, ..self.settings.config },
                    ),
                    TaskView::none(),
                )
            },
            AccentStep::WriteRecord { pair, previous, disk_enabled } => if landed {
                self.with_config(
                    AppletConfig { accent_last_written: Some(pair), ..self.settings.config },
                ).reconcile_accent_after_task(disk_enabled)
            } else {
                self.roll_back(pair, previous, disk_enabled)
            },
            AccentStep::RollbackRecord { disk_enabled } => {
                let (w, rest) = self.reconcile_accent_after_task(disk_enabled);
                if landed {
                    (w, rest)
                } else {
                    (
                        w,
                        TaskView::call(Call::Persist(ConfigWrite::AccentLastWritten(None))).and(
                            rest,
                        ),
                    )
                }
            },
            AccentStep::EnableSnapshot { snapshot, after } => if landed {
                self.with_config(
                    AppletConfig { accent_snapshot: Some(snapshot), ..self.settings.config },
                ).arm_accent_enable(after)
            } else {
                self.with_config(
                    AppletConfig { accent_snapshot: None, ..self.settings.config },
                ).refuse_enable(after)
            },
            AccentStep::ArmClear { after } => if landed {
                self.with_config(
                    AppletConfig { accent_last_written: None, ..self.settings.config },
                ).arm_accent_flag(after)
            } else {
                self.refuse_enable(after)
            },
            AccentStep::ArmFlag { after } => if landed {
                self.accent_armed(after)
            } else {
                self.with_config(
                    AppletConfig { accent_enabled: false, ..self.settings.config },
                ).refuse_enable(after)
            },
        }
    }
}

impl Window {
    /// Arms the extraction of an accent from `source`: the leader's work, and
    /// only while the feature is on and the themes can be written.
    pub fn start_accent_compute(&self, source: PathBuf) -> (task: Task)
        ensures
            task@ == self@.start_accent_compute(source),
    {
        if !self.is_active_leader() || !self.settings.config.accent_enabled
            || !self.accent.accent_handles {
            return Task::none();
        }
        Task::effect(Effect::ComputeAccent { source })
    }

    /// Arms the extraction of an accent from the applied wallpaper, if one is
    /// known.
    pub fn accent_compute_for_current(&self) -> (task: Task)
        ensures
            task@ == self@.accent_compute_for_current(),
    {
        match &self.gallery.current {
            Some(current) => self.start_accent_compute(current.clone()),
            None => Task::none(),
        }
    }

    /// Pins the accent flag on disk regardless of the value in memory.
    pub fn persist_accent_flag(&self, enabled: bool) -> (task: Task)
        ensures
            task@ == self@.persist_accent_flag(enabled),
    {
        if self.settings.config_context {
            Task::call(Call::Persist(ConfigWrite::AccentEnabled(enabled)))
        } else {
            Task::none()
        }
    }

    /// Pins the feature off on disk. An external enable arrives already
    /// persisted; leaving it there would arm the feature at the next startup
    /// over state the toggle never built.
    pub fn persist_accent_disabled(&self) -> (task: Task)
        ensures
            task@ == self@.persist_accent_flag(false),
    {
        self.persist_accent_flag(false)
    }

    /// What the popup's toggler shows: the requested state while a task is in
    /// flight, the setting itself otherwise.
    pub fn accent_toggler_state(&self) -> (on: bool)
        ensures
            on == self@.accent_toggler_state(),
    {
        if let Some(requested) = self.accent.accent_flip_requested {
            return requested;
        }
        match self.accent.accent_inflight {
            Some(AccentInflight::EnableRestore { snapshot }) => true,
            _ => self.settings.config.accent_enabled,
        }
    }

    /// Starts a theme task and holds the write guard for it. A rollback
    /// continues the flight of the write it undoes and keeps its baseline.
    pub fn spawn_accent_task(&mut self, inflight: AccentInflight) -> (task: Task)
        requires
            old(self)@.accent.accent_write_generation < u64::MAX,
        ensures
            final(self)@ == old(self)@.spawn_accent_task(inflight).0,
            task@ == old(self)@.spawn_accent_task(inflight).1,
    {
        if !self.accent.accent_handles {
            return Task::none();
        }
        self.accent.accent_write_generation = self.accent.accent_write_generation + 1;
        let task: Task = Task::effect(
            Effect::AccentTask {
                generation: self.accent.accent_write_generation,
                job: accent_job(&inflight),
            },
        );
        self.accent.accent_inflight = Some(inflight);
        match inflight {
            AccentInflight::Rollback { pair, previous } => task,
            _ => {
                self.accent.accent_disk_enabled_at_spawn = None;
                if self.settings.config_context {
                    Task::call(Call::ReadAccentBaseline).and(task)
                } else {
                    task
                }
            },
        }
    }

    /// Takes down the flag on disk at the start of a flight.
    pub fn note_accent_baseline(&mut self, enabled: Option<bool>)
        ensures
            final(self)@ == old(self)@.note_accent_baseline(enabled),
    {
        self.accent.accent_disk_enabled_at_spawn = enabled;
    }

    /// Arms the recompute that was queued during a flight, once none is in
    /// flight any more.
    pub fn recompute_if_queued(&mut self) -> (task: Task)
        ensures
            final(self)@ == old(self)@.recompute_if_queued().0,
            task@ == old(self)@.recompute_if_queued().1,
    {
        if self.accent.accent_inflight.is_none() && self.accent.accent_recompute_queued {
            self.accent.accent_recompute_queued = false;
            self.accent_compute_for_current()
        } else {
            Task::none()
        }
    }

    /// Ends a flip.
    fn flip_done(&mut self, then_recompute: bool) -> (task: Task)
        ensures
            final(self)@ == old(self)@.flip_done(then_recompute).0,
            task@ == old(self)@.flip_done(then_recompute).1,
    {
        if then_recompute {
            self.recompute_if_queued()
        } else {
            Task::none()
        }
    }

    /// The enable arm of the toggle. Without theme handles, or without
    /// settings that can be persisted, the enable is refused. A snapshot that
    /// survived a disable is the only record of the user's own accents, so it
    /// is restored first and never captured anew; otherwise the live accents
    /// are the user's and are captured now.
    pub fn try_enable_accent(&mut self, then_recompute: bool) -> (task: Task)
        requires
            old(self)@.accent.accent_write_generation < u64::MAX,
        ensures
            final(self)@ == old(self)@.try_enable_accent(then_recompute).0,
            task@ == old(self)@.try_enable_accent(then_recompute).1,
    {
        if !self.accent.accent_handles {
            let refusal: Task = self.persist_accent_disabled();
            return refusal.and(self.flip_done(then_recompute));
        }
        if !self.settings.config_context {
            return self.flip_done(then_recompute);
        }
        match self.settings.config.accent_snapshot {
            Some(snapshot) => {
                let task: Task = self.spawn_accent_task(
                    AccentInflight::EnableRestore { snapshot },
                );
                task.and(self.flip_done(then_recompute))
            },
            None => {
                let after: AccentAfter = if then_recompute {
                    AccentAfter::Recompute
                } else {
                    AccentAfter::Nothing
                };
                Task::call(Call::ReadAccents { after })
            },
        }
    }

    /// The settings a disable leaves behind.
    fn disabled_config(&self) -> (config: AppletConfig)
        ensures
            config == self@.disabled_config(),
    {
        let mut config: AppletConfig = self.settings.config;
        config.accent_enabled = false;
        config.accent_last_written = None;
        config
    }

    /// A follower's toggle goes through the one flag the leader watches.
    pub fn set_non_leader_accent_enabled(&mut self, enabled: bool) -> (task: Task)
        ensures
            enabled == old(self)@.settings.config.accent_enabled ==> final(self)@ == old(self)@
                && task@ == TaskView::none(),
            enabled != old(self)@.settings.config.accent_enabled ==> final(self)@ == old(
                self,
            )@.set_applet_setting(AppletSetting::AccentEnabled(enabled)).0 && task@ == old(
                self,
            )@.set_applet_setting(AppletSetting::AccentEnabled(enabled)).1,
    {
        if enabled == self.settings.config.accent_enabled {
            return Task::none();
        }
        self.set_applet_setting(AppletSetting::AccentEnabled(enabled))
    }

    /// The accent toggle. While a task is in flight the request is recorded
    /// and pinned on disk, and carried out after the flight. A repeated
    /// request changes nothing: an echo must not capture the feature's own
    /// accents as the user's. A disable switches off at once and restores the
    /// user's accents in the background; where it cannot, it keeps the
    /// snapshot for the next enable. With `then_recompute` the flip is part
    /// of a reconcile, and a queued recompute follows it.
    pub fn set_accent_enabled(&mut self, enabled: bool, then_recompute: bool) -> (task: Task)
        requires
            old(self)@.accent.accent_write_generation < u64::MAX,
        ensures
            final(self)@ == old(self)@.set_accent_enabled(enabled, then_recompute).0,
            task@ == old(self)@.set_accent_enabled(enabled, then_recompute).1,
    {
        if !self.is_active_leader() {
            return self.set_non_leader_accent_enabled(enabled);
        }
        if self.accent.accent_inflight.is_some() {
            if enabled == self.accent_toggler_state() {
                return Task::none();
            }
            self.accent.accent_flip_requested = Some(enabled);
            return self.persist_accent_flag(enabled);
        }
        if enabled == self.settings.config.accent_enabled {
            return self.flip_done(then_recompute);
        }
        if enabled {
            return self.try_enable_accent(then_recompute);
        }
        let snapshot: Option<AccentSnapshot> = self.settings.config.accent_snapshot;
        let config: AppletConfig = self.disabled_config();
        let persisted: Task = self.set_config(config);
        if let Some(snapshot) = snapshot {
            if self.accent.accent_handles {
                let task: Task = self.spawn_accent_task(
                    AccentInflight::DisableRestore { snapshot },
                );
                return persisted.and(task).and(self.flip_done(then_recompute));
            }
        }
        persisted.and(self.flip_done(then_recompute))
    }

    /// Catches up with what was deferred during a flight, once the flight is
    /// over. A toggle the user requested meanwhile comes first; else a flag
    /// on disk that changed since the flight started is an external flip;
    /// else memory stands. A bare comparison of disk and memory would misread
    /// the enable's own order of persists.
    pub fn reconcile_accent_after_task(&mut self, at_completion: Option<bool>) -> (task: Task)
        requires
            old(self)@.accent.accent_inflight is None ==> old(self)@.accent.accent_write_generation
                < u64::MAX,
        ensures
            final(self)@ == old(self)@.reconcile_accent_after_task(at_completion).0,
            task@ == old(self)@.reconcile_accent_after_task(at_completion).1,
    {
        if self.accent.accent_inflight.is_some() {
            return Task::none();
        }
        let requested: Option<bool> = self.accent.accent_flip_requested;
        let at_spawn: Option<bool> = self.accent.accent_disk_enabled_at_spawn;
        self.accent.accent_flip_requested = None;
        self.accent.accent_disk_enabled_at_spawn = None;
        let enabled: bool = self.settings.config.accent_enabled;
        let desired: bool = match requested {
            Some(requested) => requested,
            None => match at_spawn {
                Some(spawn) => match at_completion {
                    Some(completion) => if spawn != completion {
                        completion
                    } else {
                        enabled
                    },
                    None => enabled,
                },
                None => enabled,
            },
        };
        if desired != enabled {
            self.set_accent_enabled(desired, true)
        } else {
            self.recompute_if_queued()
        }
    }

    /// Starts what follows a step of the lifecycle.
    pub fn settle_accent(&mut self, after: AccentAfter) -> (task: Task)
        requires
            old(self)@.accent.accent_write_generation < u64::MAX,
        ensures
            final(self)@ == old(self)@.settle_accent(after).0,
            task@ == old(self)@.settle_accent(after).1,
    {
        match after {
            AccentAfter::Nothing => Task::none(),
            AccentAfter::Recompute => self.recompute_if_queued(),
            AccentAfter::Reconcile { disk_enabled } => self.reconcile_accent_after_task(
                disk_enabled,
            ),
        }
    }

    /// Refuses an enable.
    fn refuse_enable(&mut self, after: AccentAfter) -> (task: Task)
        requires
            old(self)@.accent.accent_write_generation < u64::MAX,
        ensures
            final(self)@ == old(self)@.refuse_enable(after).0,
            task@ == old(self)@.refuse_enable(after).1,
    {
        let refusal: Task = self.persist_accent_disabled();
        refusal.and(self.settle_accent(after))
    }

    /// Switches the feature on in memory and arms its first compute.
    fn accent_armed(&mut self, after: AccentAfter) -> (task: Task)
        requires
            old(self)@.accent.accent_write_generation < u64::MAX,
        ensures
            final(self)@ == old(self)@.accent_armed(after).0,
            task@ == old(self)@.accent_armed(after).1,
    {
        self.settings.config.accent_enabled = true;
        let compute: Task = self.accent_compute_for_current();
        compute.and(self.settle_accent(after))
    }

    /// Persists the flag of an enable, which lands last: no failure before it
    /// leaves the feature on over state that is not on disk.
    fn arm_accent_flag(&mut self, after: AccentAfter) -> (task: Task)
        requires
            old(self)@.accent.accent_write_generation < u64::MAX,
        ensures
            final(self)@ == old(self)@.arm_accent_flag(after).0,
            task@ == old(self)@.arm_accent_flag(after).1,
    {
        if self.settings.config.accent_enabled {
            return self.accent_armed(after);
        }
        Task::call(
            Call::PersistChecked {
                write: ConfigWrite::AccentEnabled(true),
                step: AccentStep::ArmFlag { after },
            },
        )
    }

    /// The tail of an enable: clear the stale record, flip the flag, arm a
    /// compute. It runs only once the user's accents are safely on disk, or
    /// restored. A key that holds the value already is not written again.
    pub fn arm_accent_enable(&mut self, after: AccentAfter) -> (task: Task)
        requires
            old(self)@.accent.accent_write_generation < u64::MAX,
        ensures
            final(self)@ == old(self)@.arm_accent_enable(after).0,
            task@ == old(self)@.arm_accent_enable(after).1,
    {
        if !self.settings.config_context {
            return self.settle_accent(after);
        }
        if self.settings.config.accent_last_written.is_none() {
            return self.arm_accent_flag(after);
        }
        Task::call(
            Call::PersistChecked {
                write: ConfigWrite::AccentLastWritten(None),
                step: AccentStep::ArmClear { after },
            },
        )
    }

    /// Captures the live accents for an enable: the first of its persists.
    pub fn snapshot_for_enable(&mut self, snapshot: AccentSnapshot, after: AccentAfter) -> (task:
        Task)
        requires
            old(self)@.accent.accent_write_generation < u64::MAX,
        ensures
            final(self)@ == old(self)@.snapshot_for_enable(snapshot, after).0,
            task@ == old(self)@.snapshot_for_enable(snapshot, after).1,
    {
        if self.settings.config.accent_snapshot == Some(snapshot) {
            return self.arm_accent_enable(after);
        }
        Task::call(
            Call::PersistChecked {
                write: ConfigWrite::AccentSnapshot(Some(snapshot)),
                step: AccentStep::EnableSnapshot { snapshot, after },
            },
        )
    }

    /// A computed accent arrived. It is dropped if the wallpaper changed
    /// meanwhile, queued while a theme write is in flight, and planned
    /// against the themes as they are now otherwise.
    pub fn finish_accent_compute(&mut self, source: PathBuf, hue: Option<u32>) -> (task: Task)
        ensures
            final(self)@ == old(self)@.finish_accent_compute(source, hue).0,
            task@ == old(self)@.finish_accent_compute(source, hue).1,
    {
        if !self.is_active_leader() {
            return Task::none();
        }
        if !holds_path(&self.gallery.current, &source) {
            return Task::none();
        }
        if self.accent.accent_inflight.is_some() {
            self.accent.accent_recompute_queued = true;
            return Task::none();
        }
        if !self.accent.accent_handles {
            return Task::none();
        }
        Task::call(
            Call::PlanAccent {
                enabled: self.settings.config.accent_enabled,
                snapshot: self.settings.config.accent_snapshot,
                last_written: self.settings.config.accent_last_written,
                hue,
            },
        )
    }

    /// Starts a theme write over the accents the plan compared.
    fn spawn_accent_write(&mut self, builders: Builders, pair: AccentPair) -> (task: Task)
        requires
            old(self)@.accent.accent_write_generation < u64::MAX,
        ensures
            final(self)@ == old(self)@.spawn_accent_write(builders, pair).0,
            task@ == old(self)@.spawn_accent_write(builders, pair).1,
    {
        self.spawn_accent_task(
            AccentInflight::Write { builders, pair, previous: builders.accents },
        )
    }

    /// Carries a plan out. A first write persists the accents it is about to
    /// replace before anything is spawned: without them on disk there is no
    /// write. A disarm leaves the user's choice in the themes, and keeps the
    /// snapshot where the mismatch may be the feature's own unrecorded write.
    pub fn execute_accent_action(&mut self, action: AccentAction, builders: Builders) -> (task:
        Task)
        requires
            old(self)@.accent.accent_write_generation < u64::MAX,
        ensures
            final(self)@ == old(self)@.execute_accent_action(action, builders).0,
            task@ == old(self)@.execute_accent_action(action, builders).1,
    {
        match action {
            AccentAction::Write { light, dark, snapshot_now } => {
                let pair: AccentPair = AccentPair { light, dark };
                if !self.accent.accent_handles || !self.settings.config_context {
                    return Task::none();
                }
                if snapshot_now && self.settings.config.accent_snapshot != Some(builders.accents) {
                    return Task::call(
                        Call::PersistChecked {
                            write: ConfigWrite::AccentSnapshot(Some(builders.accents)),
                            step: AccentStep::WriteSnapshot { builders, pair },
                        },
                    );
                }
                self.spawn_accent_write(builders, pair)
            },
            AccentAction::Disarm { keep_snapshot } => {
                let mut config: AppletConfig = self.disabled_config();
                if !keep_snapshot {
                    config.accent_snapshot = None;
                }
                self.set_config(config)
            },
            AccentAction::Skip => Task::none(),
        }
    }

    /// A theme write completed. Its record is persisted only now that the
    /// write landed; a failed write was undone by the task itself, and the
    /// next compute retries.
    pub fn finish_accent_write(
        &mut self,
        pair: AccentPair,
        previous: AccentSnapshot,
        success: bool,
        disk_enabled: Option<bool>,
    ) -> (task: Task)
        requires
            old(self)@.accent.accent_write_generation < u64::MAX,
        ensures
            final(self)@ == old(self)@.finish_accent_write(pair, previous, success, disk_enabled).0,
            task@ == old(self)@.finish_accent_write(pair, previous, success, disk_enabled).1,
    {
        if !success {
            return self.reconcile_accent_after_task(disk_enabled);
        }
        if !self.settings.config_context {
            return self.roll_back(pair, previous, disk_enabled);
        }
        if self.settings.config.accent_last_written == Some(pair) {
            return self.reconcile_accent_after_task(disk_enabled);
        }
        Task::call(
            Call::PersistChecked {
                write: ConfigWrite::AccentLastWritten(Some(pair)),
                step: AccentStep::WriteRecord { pair, previous, disk_enabled },
            },
        )
    }

    /// Undoes a theme write whose record could not be persisted.
    fn roll_back(
        &mut self,
        pair: AccentPair,
        previous: AccentSnapshot,
        disk_enabled: Option<bool>,
    ) -> (task: Task)
        requires
            old(self)@.accent.accent_write_generation < u64::MAX,
        ensures
            final(self)@ == old(self)@.roll_back(pair, previous, disk_enabled).0,
            task@ == old(self)@.roll_back(pair, previous, disk_enabled).1,
    {
        let task: Task = self.spawn_accent_task(AccentInflight::Rollback { pair, previous });
        task.and(self.reconcile_accent_after_task(disk_enabled))
    }

    /// The undoing of a theme write completed. Where it failed too, the
    /// themes hold `pair`, so memory takes it over and the record on disk is
    /// repaired: to the pair, or if even that fails, to none, whose disarm
    /// keeps the snapshot.
    pub fn finish_rollback(&mut self, pair: AccentPair, success: bool, disk_enabled: Option<bool>)
        -> (task: Task)
        requires
            old(self)@.accent.accent_write_generation < u64::MAX,
        ensures
            final(self)@ == old(self)@.finish_rollback(pair, success, disk_enabled).0,
            task@ == old(self)@.finish_rollback(pair, success, disk_enabled).1,
    {
        if success {
            return self.reconcile_accent_after_task(disk_enabled);
        }
        self.settings.config.accent_last_written = Some(pair);
        if self.settings.config_context {
            Task::call(
                Call::PersistChecked {
                    write: ConfigWrite::AccentLastWritten(Some(pair)),
                    step: AccentStep::RollbackRecord { disk_enabled },
                },
            )
        } else {
            self.reconcile_accent_after_task(disk_enabled)
        }
    }

    /// The restore of a disable completed. The snapshot is cleared only now
    /// that the restore landed; a failed one keeps it for the next enable.
    pub fn finish_disable_restore(&mut self, success: bool, disk_enabled: Option<bool>) -> (task:
        Task)
        requires
            old(self)@.accent.accent_write_generation < u64::MAX,
        ensures
            final(self)@ == old(self)@.finish_disable_restore(success, disk_enabled).0,
            task@ == old(self)@.finish_disable_restore(success, disk_enabled).1,
    {
        if success {
            let mut config: AppletConfig = self.settings.config;
            config.accent_snapshot = None;
            let persisted: Task = self.set_config(config);
            persisted.and(self.reconcile_accent_after_task(disk_enabled))
        } else {
            self.reconcile_accent_after_task(disk_enabled)
        }
    }

    /// The restore of an enable completed. Only a successful one arms the
    /// feature, and only if the user did not toggle off meanwhile.
    pub fn finish_enable_restore(&mut self, success: bool, disk_enabled: Option<bool>) -> (task:
        Task)
        requires
            old(self)@.accent.accent_write_generation < u64::MAX,
        ensures
            final(self)@ == old(self)@.finish_enable_restore(success, disk_enabled).0,
            task@ == old(self)@.finish_enable_restore(success, disk_enabled).1,
    {
        let after: AccentAfter = AccentAfter::Reconcile { disk_enabled };
        if !success || self.accent.accent_flip_requested == Some(false) {
            self.refuse_enable(after)
        } else {
            self.arm_accent_enable(after)
        }
    }

    /// A theme task completed: release the guard, finish what the task
    /// started, and catch up with what was deferred. `disk_enabled` is the
    /// flag on disk before any of that persists anything. A completion of an
    /// older generation is ignored.
    pub fn finish_accent_task(
        &mut self,
        generation: u64,
        success: bool,
        disk_enabled: Option<bool>,
    ) -> (task: Task)
        requires
            old(self)@.accent.accent_write_generation < u64::MAX,
        ensures
            final(self)@ == old(self)@.finish_accent_task(generation, success, disk_enabled).0,
            task@ == old(self)@.finish_accent_task(generation, success, disk_enabled).1,
    {
        if !self.is_active_leader() {
            return Task::none();
        }
        if generation != self.accent.accent_write_generation {
            return Task::none();
        }
        match self.accent.accent_inflight.take() {
            None => Task::none(),
            Some(AccentInflight::Write { builders, pair, previous }) => self.finish_accent_write(
                pair,
                previous,
                success,
                disk_enabled,
            ),
            Some(AccentInflight::DisableRestore { snapshot }) => self.finish_disable_restore(
                success,
                disk_enabled,
            ),
            Some(AccentInflight::EnableRestore { snapshot }) => self.finish_enable_restore(
                success,
                disk_enabled,
            ),
            Some(AccentInflight::Rollback { pair, previous }) => self.finish_rollback(
                pair,
                success,
                disk_enabled,
            ),
        }
    }

    /// A checked persist was answered: go on with the step that waited for
    /// it, or give it up and leave memory as if it had not been tried.
    pub fn accent_persisted(&mut self, step: AccentStep, landed: bool) -> (task: Task)
        requires
            old(self)@.accent.accent_write_generation < u64::MAX,
        ensures
            final(self)@ == old(self)@.accent_persisted(step, landed).0,
            task@ == old(self)@.accent_persisted(step, landed).1,
    {
        match step {
            AccentStep::WriteSnapshot { builders, pair } => if landed {
                self.settings.config.accent_snapshot = Some(builders.accents);
                self.spawn_accent_write(builders, pair)
            } else {
                self.settings.config.accent_snapshot = None;
                Task::none()
            },
            AccentStep::WriteRecord { pair, previous, disk_enabled } => if landed {
                self.settings.config.accent_last_written = Some(pair);
                self.reconcile_accent_after_task(disk_enabled)
            } else {
                self.roll_back(pair, previous, disk_enabled)
            },
            AccentStep::RollbackRecord { disk_enabled } => if landed {
                self.reconcile_accent_after_task(disk_enabled)
            } else {
                let clear: Task = Task::call(Call::Persist(ConfigWrite::AccentLastWritten(None)));
                clear.and(self.reconcile_accent_after_task(disk_enabled))
            },
            AccentStep::EnableSnapshot { snapshot, after } => if landed {
                self.settings.config.accent_snapshot = Some(snapshot);
                self.arm_accent_enable(after)
            } else {
                self.settings.config.accent_snapshot = None;
                self.refuse_enable(after)
            },
            AccentStep::ArmClear { after } => if landed {
                self.settings.config.accent_last_written = None;
                self.arm_accent_flag(after)
            } else {
                self.refuse_enable(after)
            },
            AccentStep::ArmFlag { after } => if landed {
                self.accent_armed(after)
            } else {
                self.settings.config.accent_enabled = false;
                self.refuse_enable(after)
            },
        }
    }
}

} // verus!
