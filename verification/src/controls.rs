//! The popup's controls: how a changed setting is taken over and persisted.

use vstd::prelude::*;
use crate::effect::{Call, Effect, Task, TaskView};
use crate::schedule::{next_generation, next_number};
use crate::settings::{
    adopted, changed_writes, list_changed_writes, AppletConfig, AppletSetting, ConfigWrite,
};
use crate::window::{SettingsView, Window, WindowView};

verus! {

/// The calls that persist a list of single-key writes, one after the other.
pub open spec fn persists(writes: Seq<ConfigWrite>) -> TaskView {
    TaskView {
        calls: Seq::new(writes.len(), |i: int| Call::Persist(writes[i])),
        effects: Seq::empty(),
    }
}

/// Persists a list of single-key writes, one after the other.
pub fn persist_all(writes: Vec<ConfigWrite>) -> (task: Task)
    ensures
        task@ == persists(writes@),
{
    let mut calls: Vec<Call> = Vec::new();
    let mut at: usize = 0;
    while at < writes.len()
        invariant
            at <= writes.len(),
            calls@ == Seq::new(at as nat, |i: int| Call::Persist(writes@[i])),
        decreases writes.len() - at,
    {
        calls.push(Call::Persist(writes[at]));
        at = at + 1;
    }
    let task: Task = Task { calls, effects: Vec::new() };
    assert(task@.effects == Seq::<Effect>::empty());
    task
}

impl WindowView {
    /// The settings with another configuration.
    pub open spec fn with_config(self, config: AppletConfig) -> WindowView {
        WindowView { settings: SettingsView { config, ..self.settings }, ..self }
    }

    /// A leader takes a configuration over and persists what changed.
    pub open spec fn set_config(self, config: AppletConfig) -> (WindowView, TaskView) {
        if !self.is_active_leader() || self.settings.config == config {
            (self, TaskView::none())
        } else {
            (
                self.with_config(config),
                if self.settings.config_context {
                    persists(changed_writes(self.settings.config, config))
                } else {
                    TaskView::none()
                },
            )
        }
    }

    /// The next queued setting write is started, unless one is in flight.
    pub open spec fn start_next_setting_write(self) -> (WindowView, TaskView) {
        let queue = self.settings.setting_write_queue;
        if self.settings.setting_write_inflight || queue.len() == 0 {
            (self, TaskView::none())
        } else {
            (
                WindowView {
                    settings: SettingsView {
                        setting_write_queue: queue.subrange(1, queue.len() as int),
                        setting_write_inflight: true,
                        ..self.settings
                    },
                    ..self
                },
                TaskView::effect(
                    Effect::WriteSetting { generation: queue[0].0, setting: queue[0].1 },
                ),
            )
        }
    }

    /// A setting is persisted as a key of its own.
    pub open spec fn set_applet_setting(self, setting: AppletSetting) -> (WindowView, TaskView) {
        if !self.settings.config_context {
            if setting == AppletSetting::AccentEnabled(true) {
                (self, TaskView::none())
            } else {
                (self.with_config(adopted(self.settings.config, setting)), TaskView::none())
            }
        } else {
            let slot = setting.slot_spec();
            let generation = next_number(self.settings.setting_write_generations[slot]);
            WindowView {
                settings: SettingsView {
                    config: if self.is_active_leader() {
                        adopted(self.settings.config, setting)
                    } else {
                        self.settings.config
                    },
                    setting_write_generations: self.settings.setting_write_generations.update(
                        slot,
                        generation,
                    ),
                    setting_write_queue: self.settings.setting_write_queue.push(
                        (generation, setting),
                    ),
                    ..self.settings
                },
                ..self
            }.start_next_setting_write()
        }
    }

    /// A setting write completed.
    pub open spec fn finish_applet_setting_write(
        self,
        generation: u64,
        setting: AppletSetting,
        landed: bool,
    ) -> (WindowView, TaskView) {
        let newest = generation == self.settings.setting_write_generations[setting.slot_spec()];
        let done = WindowView {
            settings: SettingsView {
                config: if !self.is_active_leader() && newest && landed {
                    adopted(self.settings.config, setting)
                } else {
                    self.settings.config
                },
                setting_write_inflight: false,
                ..self.settings
            },
            ..self
        };
        if self.settings.config_context {
            done.start_next_setting_write()
        } else {
            (done, TaskView::none())
        }
    }
}

impl Window {
    /// Takes a configuration over and persists only the keys this transition
    /// changed. The full entry is never written: a follower may have written
    /// an unrelated key meanwhile. A process that is not the active leader
    /// changes nothing.
    pub fn set_config(&mut self, config: AppletConfig) -> (task: Task)
        ensures
            final(self)@ == old(self)@.set_config(config).0,
            task@ == old(self)@.set_config(config).1,
    {
        if !self.is_active_leader() {
            return Task::none();
        }
        if self.settings.config == config {
            return Task::none();
        }
        let previous: AppletConfig = self.settings.config;
        self.settings.config = config;
        if !self.settings.config_context {
            return Task::none();
        }
        persist_all(list_changed_writes(previous, config))
    }

    /// Starts the next queued setting write. One at a time: an older write
    /// must never land after a newer click's.
    pub fn start_next_setting_write(&mut self) -> (task: Task)
        ensures
            final(self)@ == old(self)@.start_next_setting_write().0,
            task@ == old(self)@.start_next_setting_write().1,
    {
        if self.settings.setting_write_inflight {
            return Task::none();
        }
        match self.settings.setting_write_queue.pop_front() {
            Some((generation, setting)) => {
                self.settings.setting_write_inflight = true;
                Task::effect(Effect::WriteSetting { generation, setting })
            },
            None => Task::none(),
        }
    }

    /// Persists one user setting as a key of its own. A leader takes it over
    /// at once, so that its duties follow the control; a follower only after
    /// the write landed, so that its popup never claims a request the leader
    /// cannot see. Without a context the setting is taken over in memory,
    /// except for switching the accent feature on.
    pub fn set_applet_setting(&mut self, setting: AppletSetting) -> (task: Task)
        ensures
            final(self)@ == old(self)@.set_applet_setting(setting).0,
            task@ == old(self)@.set_applet_setting(setting).1,
    {
        if !self.settings.config_context {
            if setting != AppletSetting::AccentEnabled(true) {
                setting.adopt(&mut self.settings.config);
            }
            return Task::none();
        }
        let slot: usize = setting.slot();
        if self.is_active_leader() {
            setting.adopt(&mut self.settings.config);
        }
        let generation: u64 = next_generation(self.settings.setting_write_generations[slot]);
        self.settings.setting_write_generations[slot] = generation;
        self.settings.setting_write_queue.push_back((generation, setting));
        self.start_next_setting_write()
    }

    /// A setting write completed. A follower takes the setting over only if
    /// the write landed and no newer write of the same setting was issued.
    pub fn finish_applet_setting_write(
        &mut self,
        generation: u64,
        setting: AppletSetting,
        result: Result<(), String>,
    ) -> (task: Task)
        ensures
            final(self)@ == old(self)@.finish_applet_setting_write(
                generation,
                setting,
                result is Ok,
            ).0,
            task@ == old(self)@.finish_applet_setting_write(generation, setting, result is Ok).1,
    {
        self.settings.setting_write_inflight = false;
        let slot: usize = setting.slot();
        let landed: bool = match result {
            Ok(_) => true,
            Err(_) => false,
        };
        if !self.is_active_leader() && generation == self.settings.setting_write_generations[slot]
            && landed {
            setting.adopt(&mut self.settings.config);
        }
        if self.settings.config_context {
            self.start_next_setting_write()
        } else {
            Task::none()
        }
    }
}

/// Setting writes go out one at a time, in the order they were asked for:
/// while one is in flight another only joins the queue, and each one started
/// is the oldest that waits.
pub proof fn setting_writes_go_out_in_order(window: WindowView, setting: AppletSetting)
    requires
        window.settings.config_context,
        window.settings.setting_write_generations.len() == 4,
    ensures
        window.settings.setting_write_inflight ==> {
            &&& window.set_applet_setting(setting).1 == TaskView::none()
            &&& window.set_applet_setting(setting).0.settings.setting_write_queue
                == window.settings.setting_write_queue.push(
                (
                    window.set_applet_setting(
                        setting,
                    ).0.settings.setting_write_generations[setting.slot_spec()],
                    setting,
                ),
            )
        },
        !window.settings.setting_write_inflight && window.settings.setting_write_queue.len() == 0
            ==> {
            &&& window.set_applet_setting(setting).1.effects == seq![
                Effect::WriteSetting {
                    generation: window.set_applet_setting(
                        setting,
                    ).0.settings.setting_write_generations[setting.slot_spec()],
                    setting,
                },
            ]
            &&& window.set_applet_setting(setting).0.settings.setting_write_queue
                =~= Seq::<(u64, AppletSetting)>::empty()
        },
        window.set_applet_setting(setting).0.settings.setting_write_inflight,
{
}

/// The completion of a setting write lets the next one out: none waits while
/// nothing is in flight.
pub proof fn a_finished_write_lets_the_next_one_out(
    window: WindowView,
    generation: u64,
    setting: AppletSetting,
    landed: bool,
)
    requires
        window.settings.config_context,
    ensures
        ({
            let (after, task) = window.finish_applet_setting_write(generation, setting, landed);
            let queue = window.settings.setting_write_queue;
            if queue.len() > 0 {
                &&& task.effects == seq![
                    Effect::WriteSetting { generation: queue[0].0, setting: queue[0].1 },
                ]
                &&& after.settings.setting_write_inflight
                &&& after.settings.setting_write_queue == queue.subrange(1, queue.len() as int)
            } else {
                &&& task == TaskView::none()
                &&& !after.settings.setting_write_inflight
            }
        }),
{
}

/// A follower shows a setting only once its write has landed, and only if no
/// newer write of the same setting was asked for meanwhile.
pub proof fn a_follower_adopts_only_the_newest_landed_write(
    window: WindowView,
    generation: u64,
    setting: AppletSetting,
    landed: bool,
)
    requires
        !window.is_active_leader(),
    ensures
        window.finish_applet_setting_write(generation, setting, landed).0.settings.config == (
        if landed && generation == window.settings.setting_write_generations[setting.slot_spec()] {
            adopted(window.settings.config, setting)
        } else {
            window.settings.config
        }),
        window.settings.config_context ==> window.set_applet_setting(setting).0.settings.config
            == window.settings.config,
{
}

/// A leader takes a setting over at once, and its completion changes nothing
/// more.
pub proof fn a_leader_adopts_at_once(
    window: WindowView,
    generation: u64,
    setting: AppletSetting,
    landed: bool,
)
    requires
        window.is_active_leader(),
        window.settings.config_context,
    ensures
        window.set_applet_setting(setting).0.settings.config == adopted(
            window.settings.config,
            setting,
        ),
        window.finish_applet_setting_write(generation, setting, landed).0.settings.config
            == window.settings.config,
{
}

} // verus!
