//! The reaction to every message.

use vstd::prelude::*;
use crate::accent_laws::toggle_stays_quiet;
use crate::effect::{ApplyReason, Call, Effect, Task, TaskView};
use crate::identity::{is_web_link, web_url};
use crate::message::Message;
use crate::paths::{absolute_path, is_absolute};
use crate::schedule::{keeps_less, next_generation, next_number, retention_reduced};
use crate::settings::{
    default_config, normalize, normalized, normalizing_gives_supported_settings, AppletConfig,
    AppletSetting,
};
use crate::window::{SettingsView, Window, WindowView};
use std::path::PathBuf;

verus! {

impl WindowView {
    /// The panel icon was clicked.
    pub open spec fn toggle_popup(self) -> (WindowView, TaskView) {
        match self.popups.popup {
            Some(id) => {
                let (popups, task) = self.popups.take_popup(id);
                (WindowView { popups, ..self }, task)
            },
            None => {
                let open = TaskView::effect(Effect::OpenPopup);
                if !self.role.leadership.leader && !self.peers.peer_refresh_write_pending
                    && self.peers.requested_peer_refresh is None && !self.work.refresh_pending {
                    let (w, reload) = self.request_non_leader_reload(true);
                    (w, open.and(reload))
                } else {
                    (self, open)
                }
            },
        }
    }

    /// The settings changed on disk.
    pub open spec fn config_updated(self, payload: AppletConfig) -> (WindowView, TaskView) {
        let seen = self.watcher_event();
        if seen.is_hydrating() {
            (seen, TaskView::none())
        } else {
            seen.confirm_config_update(payload)
        }
    }

    /// A new confirmation of the settings is under way.
    pub open spec fn confirming(self) -> WindowView {
        WindowView {
            settings: SettingsView {
                config_confirmation_generation: next_number(
                    self.settings.config_confirmation_generation,
                ),
                ..self.settings
            },
            ..self
        }
    }

    /// A settings change is confirmed from disk, where that can be read.
    pub open spec fn confirm_config_update(self, payload: AppletConfig) -> (WindowView, TaskView) {
        let generation = next_number(self.settings.config_confirmation_generation);
        let was_active_leader = self.is_active_leader();
        let payload = normalized(payload, self.settings.choices);
        let w = self.confirming();
        if !self.settings.config_context {
            w.finish_config_confirmation(generation, was_active_leader, payload)
        } else {
            (
                w,
                TaskView::effect(Effect::ConfirmConfig { generation, was_active_leader, payload }),
            )
        }
    }

    /// The confirmed settings as a follower takes them over: the records of
    /// the accent feature stay.
    pub open spec fn follower_config(self, config: AppletConfig) -> AppletConfig {
        AppletConfig {
            accent_snapshot: self.settings.config.accent_snapshot,
            accent_last_written: self.settings.config.accent_last_written,
            ..config
        }
    }

    /// The confirmed settings as a leader takes them over: everything about
    /// the accent feature stays, its flag included.
    pub open spec fn leader_config(self, config: AppletConfig) -> AppletConfig {
        AppletConfig {
            accent_enabled: self.settings.config.accent_enabled,
            ..self.follower_config(config)
        }
    }

    /// A settings change was confirmed: what is taken over of it is supported.
    pub open spec fn finish_config_confirmation(
        self,
        generation: u64,
        was_active_leader: bool,
        config: AppletConfig,
    ) -> (WindowView, TaskView) {
        let config = normalized(config, self.settings.choices);
        if generation != self.settings.config_confirmation_generation || was_active_leader
            != self.is_active_leader() {
            (self, TaskView::none())
        } else if !self.is_active_leader() {
            (self.with_config(self.follower_config(config)), TaskView::none())
        } else {
            let held = self.settings.config;
            let shuffle_changed = config.shuffle_enabled != held.shuffle_enabled
                || config.shuffle_interval_secs != held.shuffle_interval_secs;
            let accent_flip = if self.accent.accent_inflight is None && config.accent_enabled
                != held.accent_enabled {
                Some(config.accent_enabled)
            } else {
                None
            };
            let w = self.with_config(self.leader_config(config));
            if keeps_less(held.retention_days, config.retention_days) {
                (w, w.prune_immediately(shuffle_changed, accent_flip))
            } else {
                let (w1, shuffle) = if shuffle_changed {
                    w.sync_shuffle(true)
                } else {
                    (w, TaskView::none())
                };
                match accent_flip {
                    Some(enabled) => {
                        let (w2, flip) = w1.set_accent_enabled(enabled, false);
                        (w2, shuffle.and(flip))
                    },
                    None => (w1, shuffle),
                }
            }
        }
    }

    /// A shuffle setting was changed in the popup.
    pub open spec fn set_shuffle(self, setting: AppletSetting) -> (WindowView, TaskView) {
        let (w, persist) = self.set_applet_setting(setting);
        if self.is_active_leader() {
            let (w2, shuffle) = w.sync_shuffle(true);
            (w2, persist.and(shuffle))
        } else {
            (w, persist)
        }
    }

    /// The retention was changed in the popup.
    pub open spec fn set_retention(self, index: int) -> (WindowView, TaskView) {
        let days = self.settings.choices.retention_at(index);
        let (w, persist) = self.set_applet_setting(AppletSetting::Retention(days));
        if self.is_active_leader() && keeps_less(self.settings.config.retention_days, days) {
            (w, persist.and(w.prune_immediately(false, None)))
        } else {
            (w, persist)
        }
    }

    /// The refresh timer fired.
    pub open spec fn refresh_due(self, generation: u64) -> TaskView {
        if self.is_active_leader() && generation == self.timers.timer_generation {
            self.start_refresh()
        } else {
            TaskView::none()
        }
    }

    /// A rung of the lock-poke ladder came due.
    pub open spec fn lock_poke_due(self, generation: u64) -> TaskView {
        if self.due_lock_poke(generation) {
            TaskView::effect(Effect::PokeLockScreen)
        } else {
            TaskView::none()
        }
    }

    /// The reaction to a message at the time `now`.
    pub open spec fn update(self, message: Message, now: u64) -> (WindowView, TaskView) {
        match message {
            Message::TogglePopup => self.toggle_popup(),
            Message::PopupOpened(id) => (
                WindowView { popups: self.popups.adopt_popup(id), ..self },
                TaskView::none(),
            ),
            Message::PopupClosed(id) => {
                let (popups, task) = self.popups.on_popup_closed(id);
                (WindowView { popups, ..self }, task)
            },
            Message::ConfigUpdated(config) => self.config_updated(config),
            Message::ConfigConfirmed { generation, was_active_leader, config } =>
                self.finish_config_confirmation(generation, was_active_leader, config),
            Message::CoordinationUpdated(incoming) => self.coordination_updated(incoming, now),
            Message::PeerRefreshLiveRead { request, live } => self.finish_peer_refresh_live_read(
                request,
                live,
            ),
            Message::LeadershipTick(generation) => self.on_leadership_tick(generation),
            Message::LeadershipTried(acquired) => self.leadership_tried(acquired),
            Message::LeadershipHydrated { generation, state_generation, result } =>
                self.finish_leadership_hydration(generation, state_generation, result),
            Message::NonLeaderReloaded { generation, result } => self.finish_non_leader_reload(
                generation,
                result,
            ),
            Message::AppletSettingWritten { generation, setting, result } =>
                self.finish_applet_setting_write(generation, setting, result is Ok),
            Message::RefreshDue(generation) => (self, self.refresh_due(generation)),
            Message::LiveRead { purpose, live } => self.live_read(purpose, live),
            Message::RefreshFinished { result, live } => self.finish_refresh_over(result, live),
            Message::Merged { images, tail } => self.finish_merge(images@, tail),
            Message::Pruned { images, tail } => self.finish_prune(images@, tail, now),
            Message::PeerRefreshRequested(result) => self.finish_peer_refresh_request(result, now),
            Message::PeerRefreshCompletionWritten { completion, result } => (
                self.completion_written(completion, result),
                TaskView::none(),
            ),
            Message::PeerRefreshTimeout { generation, request } => self.timeout_peer_refresh(
                generation,
                request,
            ),
            Message::PeerApplyNoticeWritten(result) => (
                self.notice_written(result),
                TaskView::none(),
            ),
            Message::PeerApplyValidated { generation, live } => self.finish_peer_apply_validation(
                generation,
                live,
            ),
            Message::ThumbnailsReady(live) => self.thumbnails_ready(live),
            Message::ApplyImage(path) => (
                self,
                TaskView::call(Call::Apply { path, why: ApplyReason::Manual }),
            ),
            Message::Applied { path, why, outcome } => self.applied(path, why, outcome),
            Message::RefreshNow => self.refresh_now(),
            Message::OpenUrl(url) => (
                self,
                if is_web_link(url@) {
                    TaskView::call(Call::OpenUrl(url))
                } else {
                    TaskView::none()
                },
            ),
            Message::OpenFile(path) => (
                self,
                if absolute_path(path) {
                    TaskView::call(Call::OpenFile(path))
                } else {
                    TaskView::none()
                },
            ),
            Message::ShuffleDue(generation) => self.shuffle_due(generation),
            Message::ShufflePicked(pick) => self.shuffle_picked(pick),
            Message::SetShuffleEnabled(enabled) => self.set_shuffle(
                AppletSetting::ShuffleEnabled(enabled),
            ),
            Message::SetShuffleInterval(index) => self.set_shuffle(
                AppletSetting::ShuffleInterval(self.settings.choices.interval_at(index as int)),
            ),
            Message::SetRetention(index) => self.set_retention(index as int),
            Message::SetAccentEnabled(enabled) => self.set_accent_enabled(enabled, false),
            Message::AccentComputed { source, hue } => self.finish_accent_compute(source, hue),
            Message::AccentPlanned { action, builders } => self.execute_accent_action(
                action,
                builders,
            ),
            Message::AccentsRead { accents, after } => self.snapshot_for_enable(accents, after),
            Message::AccentPersisted { step, landed } => self.accent_persisted(step, landed),
            Message::AccentBaseline(enabled) => (
                self.note_accent_baseline(enabled),
                TaskView::none(),
            ),
            Message::AccentWriteFinished { generation, success, disk_enabled } =>
                self.finish_accent_task(generation, success, disk_enabled),
            Message::LockEvent(_) => self.arm_lock_pokes(),
            Message::LockPokeDue(generation) => (self, self.lock_poke_due(generation)),
            Message::LockPokeFinished(_) => (self, TaskView::none()),
            Message::TooltipSurface(action) => (self, self.popups.on_tooltip_surface(action)),
            Message::DropdownSurface(action) => {
                let (popups, task) = self.popups.on_dropdown_surface(action);
                (WindowView { popups, ..self }, task)
            },
        }
    }
}

impl Window {
    /// A window asks to be closed: the message that tells of it.
    pub fn on_close_requested(&self, id: u64) -> (message: Option<Message>)
        ensures
            message == Some(Message::PopupClosed(id)),
    {
        Some(Message::PopupClosed(id))
    }

    /// The panel icon was clicked: close the popup, or open one. A follower
    /// reads its state anew beside that, unless a request of its own is about
    /// to do so.
    pub fn toggle_popup(&mut self) -> (task: Task)
        ensures
            final(self)@ == old(self)@.toggle_popup().0,
            task@ == old(self)@.toggle_popup().1,
    {
        if let Some(id) = self.popups.popup {
            return self.popups.take_popup(id);
        }
        let open: Task = Task::effect(Effect::OpenPopup);
        if !self.role.leadership.is_leader() && !self.peers.peer_refresh_write_pending
            && self.peers.requested_peer_refresh.is_none() && !self.work.refresh_pending {
            return open.and(self.request_non_leader_reload(true));
        }
        open
    }

    /// The settings changed on disk. During a takeover nothing is adopted:
    /// the state will be read afresh.
    pub fn config_updated(&mut self, payload: AppletConfig) -> (task: Task)
        requires
            old(self)@.is_active_leader() ==> old(self)@.timers.shuffle_generation < u64::MAX,
            old(self)@.accent.accent_write_generation < u64::MAX,
        ensures
            final(self)@ == old(self)@.config_updated(payload).0,
            task@ == old(self)@.config_updated(payload).1,
    {
        self.watcher_event();
        if self.is_hydrating() {
            return Task::none();
        }
        self.confirm_config_update(payload)
    }

    /// Treats a watcher payload as evidence and confirms the settings from
    /// disk. Where they cannot be read, there is no echo of a write of ours
    /// either, and the payload itself is used, normalised.
    pub fn confirm_config_update(&mut self, payload: AppletConfig) -> (task: Task)
        requires
            old(self)@.is_active_leader() ==> old(self)@.timers.shuffle_generation < u64::MAX,
            old(self)@.accent.accent_write_generation < u64::MAX,
        ensures
            final(self)@ == old(self)@.confirm_config_update(payload).0,
            task@ == old(self)@.confirm_config_update(payload).1,
    {
        let generation: u64 = next_generation(self.settings.config_confirmation_generation);
        self.settings.config_confirmation_generation = generation;
        let was_active_leader: bool = self.is_active_leader();
        let payload: AppletConfig = normalize(payload, &self.settings.choices);
        if !self.settings.config_context {
            return self.finish_config_confirmation(generation, was_active_leader, payload);
        }
        Task::effect(Effect::ConfirmConfig { generation, was_active_leader, payload })
    }

    /// A settings change was confirmed. It is dropped if a newer change is
    /// being confirmed or the role changed meanwhile. It is normalised before
    /// anything of it is compared or taken over. What the accent feature
    /// recorded is never adopted from outside; a flip of its flag runs the
    /// toggle's lifecycle, unless a theme task is in flight. A reduced
    /// retention prunes at once.
    pub fn finish_config_confirmation(
        &mut self,
        generation: u64,
        was_active_leader: bool,
        config: AppletConfig,
    ) -> (task: Task)
        requires
            old(self)@.is_active_leader() ==> old(self)@.timers.shuffle_generation < u64::MAX,
            old(self)@.accent.accent_write_generation < u64::MAX,
        ensures
            final(self)@ == old(self)@.finish_config_confirmation(
                generation,
                was_active_leader,
                config,
            ).0,
            task@ == old(self)@.finish_config_confirmation(
                generation,
                was_active_leader,
                config,
            ).1,
    {
        if generation != self.settings.config_confirmation_generation || was_active_leader
            != self.is_active_leader() {
            return Task::none();
        }
        let config: AppletConfig = normalize(config, &self.settings.choices);
        let held: AppletConfig = self.settings.config;
        let shuffle_changed: bool = config.shuffle_enabled != held.shuffle_enabled
            || config.shuffle_interval_secs != held.shuffle_interval_secs;
        let reduced: bool = retention_reduced(held.retention_days, config.retention_days);
        let mut taken: AppletConfig = config;
        taken.accent_snapshot = held.accent_snapshot;
        taken.accent_last_written = held.accent_last_written;
        if !self.is_active_leader() {
            self.settings.config = taken;
            return Task::none();
        }
        let accent_flip: Option<bool> = if self.accent.accent_inflight.is_none()
            && config.accent_enabled != held.accent_enabled {
            Some(config.accent_enabled)
        } else {
            None
        };
        taken.accent_enabled = held.accent_enabled;
        self.settings.config = taken;
        if reduced {
            return self.prune_immediately(shuffle_changed, accent_flip);
        }
        let shuffle: Task = if shuffle_changed {
            self.sync_shuffle(true)
        } else {
            Task::none()
        };
        match accent_flip {
            Some(enabled) => {
                let flip: Task = self.set_accent_enabled(enabled, false);
                shuffle.and(flip)
            },
            None => shuffle,
        }
    }

    /// A shuffle setting was changed in the popup: the countdown restarts.
    pub fn set_shuffle(&mut self, setting: AppletSetting) -> (task: Task)
        requires
            old(self)@.is_active_leader() ==> old(self)@.timers.shuffle_generation < u64::MAX,
        ensures
            final(self)@ == old(self)@.set_shuffle(setting).0,
            task@ == old(self)@.set_shuffle(setting).1,
    {
        let active_leader: bool = self.is_active_leader();
        let persist: Task = self.set_applet_setting(setting);
        if active_leader {
            persist.and(self.sync_shuffle(true))
        } else {
            persist
        }
    }

    /// The retention was changed in the popup: a reduced one prunes at once.
    pub fn set_retention(&mut self, index: usize) -> (task: Task)
        ensures
            final(self)@ == old(self)@.set_retention(index as int).0,
            task@ == old(self)@.set_retention(index as int).1,
    {
        let days: u16 = self.settings.choices.retention_days(index);
        let active_leader: bool = self.is_active_leader();
        let reduced: bool = retention_reduced(self.settings.config.retention_days, days);
        let persist: Task = self.set_applet_setting(AppletSetting::Retention(days));
        if active_leader && reduced {
            persist.and(self.prune_immediately(false, None))
        } else {
            persist
        }
    }

    /// Opens a link, if it is an ordinary web address.
    pub fn open_url(&self, url: String) -> (task: Task)
        ensures
            task@ == (if is_web_link(url@) {
                TaskView::call(Call::OpenUrl(url))
            } else {
                TaskView::none()
            }),
    {
        let is_web: bool = web_url(url.as_str()).is_some();
        if is_web {
            Task::call(Call::OpenUrl(url))
        } else {
            Task::none()
        }
    }

    /// Opens a file, if its path is absolute. The path comes from a catalogue
    /// that anybody may edit, and the launcher reads a leading `-` as a flag
    /// and resolves a relative path against its own directory.
    pub fn open_file(&self, path: PathBuf) -> (task: Task)
        ensures
            task@ == (if absolute_path(path) {
                TaskView::call(Call::OpenFile(path))
            } else {
                TaskView::none()
            }),
    {
        let absolute: bool = is_absolute(&path);
        self.open_file_if(path, absolute)
    }

    /// Opens a file that was found to be named by an absolute path, and no
    /// other.
    pub fn open_file_if(&self, path: PathBuf, absolute: bool) -> (task: Task)
        ensures
            task@ == (if absolute {
                TaskView::call(Call::OpenFile(path))
            } else {
                TaskView::none()
            }),
    {
        if absolute {
            Task::call(Call::OpenFile(path))
        } else {
            Task::none()
        }
    }

    /// The refresh timer fired. A tick of an older generation is ignored.
    pub fn refresh_due(&self, generation: u64) -> (task: Task)
        ensures
            task@ == self@.refresh_due(generation),
    {
        if self.is_active_leader() && generation == self.timers.timer_generation {
            self.start_refresh()
        } else {
            Task::none()
        }
    }

    /// A rung of the lock-poke ladder came due.
    pub fn lock_poke_due(&self, generation: u64) -> (task: Task)
        ensures
            task@ == self@.lock_poke_due(generation),
    {
        if self.due_lock_poke(generation) {
            Task::effect(Effect::PokeLockScreen)
        } else {
            Task::none()
        }
    }

    /// Reacts to a message at the time `now`: the state moves on, and the
    /// task says what the shell has to do.
    pub fn update(&mut self, message: Message, now: u64) -> (task: Task)
        requires
            old(self)@.has_headroom(),
        ensures
            final(self)@ == old(self)@.update(message, now).0,
            task@ == old(self)@.update(message, now).1,
    {
        match message {
            Message::TogglePopup => self.toggle_popup(),
            Message::PopupOpened(id) => {
                self.popups.adopt_popup(id);
                Task::none()
            },
            Message::PopupClosed(id) => self.popups.on_popup_closed(id),
            Message::ConfigUpdated(config) => self.config_updated(config),
            Message::ConfigConfirmed { generation, was_active_leader, config } =>
                self.finish_config_confirmation(generation, was_active_leader, config),
            Message::CoordinationUpdated(incoming) => self.coordination_updated(incoming, now),
            Message::PeerRefreshLiveRead { request, live } => self.finish_peer_refresh_live_read(
                request,
                live,
            ),
            Message::LeadershipTick(generation) => self.on_leadership_tick(generation),
            Message::LeadershipTried(acquired) => self.leadership_tried(acquired),
            Message::LeadershipHydrated { generation, state_generation, result } =>
                self.finish_leadership_hydration(generation, state_generation, result),
            Message::NonLeaderReloaded { generation, result } => self.finish_non_leader_reload(
                generation,
                result,
            ),
            Message::AppletSettingWritten { generation, setting, result } =>
                self.finish_applet_setting_write(generation, setting, result),
            Message::RefreshDue(generation) => self.refresh_due(generation),
            Message::LiveRead { purpose, live } => self.live_read(purpose, live),
            Message::RefreshFinished { result, live } => self.finish_refresh_over(result, live),
            Message::Merged { images, tail } => self.finish_merge(images, tail),
            Message::Pruned { images, tail } => self.finish_prune(images, tail, now),
            Message::PeerRefreshRequested(result) => self.finish_peer_refresh_request(result, now),
            Message::PeerRefreshCompletionWritten { completion, result } => {
                self.completion_written(completion, result);
                Task::none()
            },
            Message::PeerRefreshTimeout { generation, request } => self.timeout_peer_refresh(
                generation,
                request,
            ),
            Message::PeerApplyNoticeWritten(result) => {
                self.notice_written(result);
                Task::none()
            },
            Message::PeerApplyValidated { generation, live } => self.finish_peer_apply_validation(
                generation,
                live,
            ),
            Message::ThumbnailsReady(live) => self.thumbnails_ready(live),
            Message::ApplyImage(path) => Task::call(
                Call::Apply { path, why: ApplyReason::Manual },
            ),
            Message::Applied { path, why, outcome } => self.applied(path, why, outcome),
            Message::RefreshNow => self.refresh_now(),
            Message::OpenUrl(url) => self.open_url(url),
            Message::OpenFile(path) => self.open_file(path),
            Message::ShuffleDue(generation) => self.shuffle_due(generation),
            Message::ShufflePicked(pick) => self.shuffle_picked(pick),
            Message::SetShuffleEnabled(enabled) => self.set_shuffle(
                AppletSetting::ShuffleEnabled(enabled),
            ),
            Message::SetShuffleInterval(index) => {
                let interval: u32 = self.settings.choices.shuffle_interval_secs(index);
                self.set_shuffle(AppletSetting::ShuffleInterval(interval))
            },
            Message::SetRetention(index) => self.set_retention(index),
            Message::SetAccentEnabled(enabled) => self.set_accent_enabled(enabled, false),
            Message::AccentComputed { source, hue } => self.finish_accent_compute(source, hue),
            Message::AccentPlanned { action, builders } => self.execute_accent_action(
                action,
                builders,
            ),
            Message::AccentsRead { accents, after } => self.snapshot_for_enable(accents, after),
            Message::AccentPersisted { step, landed } => self.accent_persisted(step, landed),
            Message::AccentBaseline(enabled) => {
                self.note_accent_baseline(enabled);
                Task::none()
            },
            Message::AccentWriteFinished { generation, success, disk_enabled } =>
                self.finish_accent_task(generation, success, disk_enabled),
            Message::LockEvent(_) => self.arm_lock_pokes(),
            Message::LockPokeDue(generation) => self.lock_poke_due(generation),
            Message::LockPokeFinished(_) => Task::none(),
            Message::TooltipSurface(action) => self.popups.on_tooltip_surface(action),
            Message::DropdownSurface(action) => self.popups.on_dropdown_surface(action),
        }
    }
}

/// A settings change counts only as its normalised form: an unsupported value
/// in it is compared, taken over and acted on as the default would be.
pub proof fn raw_settings_count_as_normalized_ones(
    window: WindowView,
    config: AppletConfig,
    generation: u64,
    was_active_leader: bool,
)
    ensures
        ({
            let normal = normalized(config, window.settings.choices);
            &&& window.config_updated(config) == window.config_updated(normal)
            &&& window.confirm_config_update(config) == window.confirm_config_update(normal)
            &&& window.finish_config_confirmation(generation, was_active_leader, config)
                == window.finish_config_confirmation(generation, was_active_leader, normal)
        }),
{
    normalizing_gives_supported_settings(config, window.settings.choices);
}

/// A retention that no dropdown offers prunes nothing where the default one
/// is in force, and leaves it in force.
pub proof fn an_unsupported_retention_deletes_nothing(
    window: WindowView,
    config: AppletConfig,
    generation: u64,
    was_active_leader: bool,
)
    requires
        !window.settings.choices.retentions.contains(config.retention_days),
        window.settings.config.retention_days == default_config().retention_days,
        window.has_headroom(),
    ensures
        ({
            let (after, task) = window.finish_config_confirmation(
                generation,
                was_active_leader,
                config,
            );
            &&& after.settings.config.retention_days == default_config().retention_days
            &&& forall|i: int|
                0 <= i < task.calls.len() ==> !(#[trigger] task.calls[i] is ReadLive)
        }),
{
    let normal = normalized(config, window.settings.choices);
    let w = window.with_config(window.leader_config(normal));
    if window.is_active_leader() {
        toggle_stays_quiet(w, normal.accent_enabled, false);
        toggle_stays_quiet(w.sync_shuffle(true).0, normal.accent_enabled, false);
    }
}

} // verus!
