//! The one-shot timers. Each carries the generation it was armed with, and a
//! tick of an older generation is ignored: arming anew replaces whatever is
//! pending. Only the active leader arms any.

use vstd::prelude::*;
use crate::effect::{Effect, Task, TaskView};
use crate::schedule::RefreshDelay;
use crate::window::{Timers, Window, WindowView};

verus! {

/// How many rungs the lock-poke ladder has.
pub const LOCK_POKE_RUNGS: u8 = 2;

impl WindowView {
    /// The refresh timer is armed.
    pub open spec fn schedule_refresh(self, delay: RefreshDelay) -> (WindowView, TaskView) {
        if !self.is_active_leader() {
            (self, TaskView::none())
        } else {
            let generation = (self.timers.timer_generation + 1) as u64;
            (
                WindowView {
                    timers: Timers { timer_generation: generation, ..self.timers },
                    ..self
                },
                TaskView::effect(Effect::RefreshTimer { generation, delay }),
            )
        }
    }

    /// The shuffle timer is armed for a full interval.
    pub open spec fn arm_shuffle(self) -> (WindowView, TaskView) {
        if !self.is_active_leader() {
            (self, TaskView::none())
        } else {
            let generation = (self.timers.shuffle_generation + 1) as u64;
            (
                WindowView {
                    timers: Timers {
                        shuffle_generation: generation,
                        shuffle_armed: true,
                        ..self.timers
                    },
                    ..self
                },
                TaskView::effect(
                    Effect::ShuffleTimer {
                        generation,
                        interval_secs: self.settings.config.shuffle_interval_secs,
                    },
                ),
            )
        }
    }

    /// Any pending shuffle tick is invalidated.
    pub open spec fn disarm_shuffle(self) -> WindowView {
        if !self.is_active_leader() {
            self
        } else {
            WindowView {
                timers: Timers {
                    shuffle_generation: (self.timers.shuffle_generation + 1) as u64,
                    shuffle_armed: false,
                    ..self.timers
                },
                ..self
            }
        }
    }

    /// Whether the shuffle timer is to run: it is switched on, and there are
    /// two images to rotate through.
    pub open spec fn shuffles(self) -> bool {
        self.settings.config.shuffle_enabled && self.gallery.images.len() >= 2
    }

    /// The shuffle timer is brought in line with the state.
    pub open spec fn sync_shuffle(self, reset_countdown: bool) -> (WindowView, TaskView) {
        if !self.is_active_leader() {
            (self, TaskView::none())
        } else if !self.shuffles() {
            (self.disarm_shuffle(), TaskView::none())
        } else if !self.timers.shuffle_armed || reset_countdown {
            self.arm_shuffle()
        } else {
            (self, TaskView::none())
        }
    }

    /// A fresh lock-poke ladder is armed: one timer per rung, all of them of
    /// one new generation.
    pub open spec fn arm_lock_pokes(self) -> (WindowView, TaskView) {
        if !self.is_active_leader() {
            (self, TaskView::none())
        } else {
            let generation = (self.timers.lock_poke_generation + 1) as u64;
            (
                WindowView {
                    timers: Timers { lock_poke_generation: generation, ..self.timers },
                    ..self
                },
                TaskView {
                    calls: Seq::empty(),
                    effects: Seq::new(
                        LOCK_POKE_RUNGS as nat,
                        |rung: int| Effect::LockPokeTimer { generation, rung: rung as u8 },
                    ),
                },
            )
        }
    }

    /// Whether a rung of this generation pokes.
    pub open spec fn due_lock_poke(self, generation: u64) -> bool {
        self.is_active_leader() && generation == self.timers.lock_poke_generation
            && self.timers.poke_config
    }
}

impl Window {
    /// Arms the one-shot refresh timer, invalidating any armed before.
    pub fn schedule_refresh(&mut self, delay: RefreshDelay) -> (task: Task)
        requires
            old(self)@.is_active_leader() ==> old(self)@.timers.timer_generation < u64::MAX,
        ensures
            final(self)@ == old(self)@.schedule_refresh(delay).0,
            task@ == old(self)@.schedule_refresh(delay).1,
    {
        if !self.is_active_leader() {
            return Task::none();
        }
        self.timers.timer_generation = self.timers.timer_generation + 1;
        Task::effect(Effect::RefreshTimer { generation: self.timers.timer_generation, delay })
    }

    /// Arms the one-shot shuffle timer for one full interval, invalidating
    /// any pending tick.
    pub fn arm_shuffle(&mut self) -> (task: Task)
        requires
            old(self)@.is_active_leader() ==> old(self)@.timers.shuffle_generation < u64::MAX,
        ensures
            final(self)@ == old(self)@.arm_shuffle().0,
            task@ == old(self)@.arm_shuffle().1,
    {
        if !self.is_active_leader() {
            return Task::none();
        }
        self.timers.shuffle_generation = self.timers.shuffle_generation + 1;
        self.timers.shuffle_armed = true;
        Task::effect(
            Effect::ShuffleTimer {
                generation: self.timers.shuffle_generation,
                interval_secs: self.settings.config.shuffle_interval_secs,
            },
        )
    }

    /// Invalidates any pending shuffle tick.
    pub fn disarm_shuffle(&mut self)
        requires
            old(self)@.is_active_leader() ==> old(self)@.timers.shuffle_generation < u64::MAX,
        ensures
            final(self)@ == old(self)@.disarm_shuffle(),
    {
        if self.is_active_leader() {
            self.timers.shuffle_generation = self.timers.shuffle_generation + 1;
            self.timers.shuffle_armed = false;
        }
    }

    /// Brings the shuffle timer in line with the current state: it runs only
    /// while shuffle is enabled and at least two images exist. With
    /// `reset_countdown` a pending tick is replaced too.
    pub fn sync_shuffle(&mut self, reset_countdown: bool) -> (task: Task)
        requires
            old(self)@.is_active_leader() ==> old(self)@.timers.shuffle_generation < u64::MAX,
        ensures
            final(self)@ == old(self)@.sync_shuffle(reset_countdown).0,
            task@ == old(self)@.sync_shuffle(reset_countdown).1,
    {
        if !self.is_active_leader() {
            return Task::none();
        }
        let should_run: bool = self.settings.config.shuffle_enabled
            && self.gallery.catalogue.images.len() >= 2;
        if !should_run {
            self.disarm_shuffle();
            Task::none()
        } else if !self.timers.shuffle_armed || reset_countdown {
            self.arm_shuffle()
        } else {
            Task::none()
        }
    }

    /// Arms the lock-poke ladder: one timer per rung, all carrying a freshly
    /// bumped generation, so that the newest event's ladder replaces any
    /// pending one as a whole.
    pub fn arm_lock_pokes(&mut self) -> (task: Task)
        requires
            old(self)@.is_active_leader() ==> old(self)@.timers.lock_poke_generation < u64::MAX,
        ensures
            final(self)@ == old(self)@.arm_lock_pokes().0,
            task@ == old(self)@.arm_lock_pokes().1,
    {
        if !self.is_active_leader() {
            return Task::none();
        }
        self.timers.lock_poke_generation = self.timers.lock_poke_generation + 1;
        let generation: u64 = self.timers.lock_poke_generation;
        let mut effects: Vec<Effect> = Vec::new();
        let mut rung: u8 = 0;
        while rung < LOCK_POKE_RUNGS
            invariant
                rung <= LOCK_POKE_RUNGS,
                effects@ == Seq::new(
                    rung as nat,
                    |rung: int| Effect::LockPokeTimer { generation, rung: rung as u8 },
                ),
            decreases LOCK_POKE_RUNGS - rung,
        {
            effects.push(Effect::LockPokeTimer { generation, rung });
            rung = rung + 1;
        }
        let task: Task = Task { calls: Vec::new(), effects };
        assert(task@.calls == Seq::<crate::effect::Call>::empty());
        task
    }

    /// Whether a rung that came due pokes: it must not be of a ladder that a
    /// newer one replaced, and there must be something to poke.
    pub fn due_lock_poke(&self, generation: u64) -> (pokes: bool)
        ensures
            pokes == self@.due_lock_poke(generation),
    {
        self.is_active_leader() && generation == self.timers.lock_poke_generation
            && self.timers.poke_config
    }
}

} // verus!
