//! Startup, and the takeover of the leader's duties by a surviving process.
//!
//! Holding the leader lock is not enough to do shared work: the state the
//! former leader and the peers wrote has to be read first, and a snapshot
//! that a watcher event made stale is read again.

use vstd::prelude::*;
use crate::catalogue::{newest_publication, CatalogueRestore, Provenance};
use crate::coordination::{generation_of, notice_generation, CoordinationConfig};
use crate::effect::{Call, Effect, Task, TaskView};
use crate::popup::PopupLedger;
use crate::schedule::{next_generation, next_number, RefreshDelay};
use crate::settings::{normalize, normalized, AppletConfig, Choices, ChoicesView};
use crate::wallpaper::{live_path, path_of, synced, ColdStart, CurrentWallpaper, LiveFile};
use crate::window::{
    Accent, Gallery, GalleryView, LeaderReadiness, Leadership, LeadershipHydration, Peers, Role,
    Settings, SettingsView, Timers, Window, WindowView, Work, WorkView,
};
use std::collections::VecDeque;
use std::path::PathBuf;

verus! {

/// Everything the shell found out before the applet starts.
#[derive(Clone, Debug, PartialEq, Eq)]
pub struct Boot {
    pub leadership: Leadership,
    /// The settings as they stand on disk, and whether they could be opened.
    pub config: AppletConfig,
    pub config_context: bool,
    /// What the dropdowns offer.
    pub choices: Choices,
    /// The mailbox, and whether it could be opened.
    pub coordination: CoordinationConfig,
    pub coordination_context: bool,
    pub accent_handles: bool,
    pub restore: CatalogueRestore,
    pub live: CurrentWallpaper,
    pub poke_config: bool,
}

/// What a takeover read, if all of it could be read.
pub open spec fn hydration_of(
    config: Result<AppletConfig, String>,
    choices: ChoicesView,
    coordination: Result<CoordinationConfig, String>,
    restore: CatalogueRestore,
    live: CurrentWallpaper,
) -> Result<LeadershipHydration, String> {
    match config {
        Err(error) => Err(error),
        Ok(config) => match coordination {
            Err(error) => Err(error),
            Ok(coordination) => Ok(
                LeadershipHydration {
                    config_context: true,
                    coordination_context: true,
                    config: normalized(config, choices),
                    coordination,
                    catalogue: restore.catalogue,
                    provenance: restore.provenance,
                    live,
                },
            ),
        },
    }
}

/// Puts a takeover snapshot together. Without settings, or without the
/// mailbox, the snapshot would not be complete: the first failure is reported
/// instead. The settings that were read are normalised.
pub fn read_hydration(
    config: Result<AppletConfig, String>,
    choices: &Choices,
    coordination: Result<CoordinationConfig, String>,
    restore: CatalogueRestore,
    live: CurrentWallpaper,
) -> (result: Result<LeadershipHydration, String>)
    ensures
        result == hydration_of(config, choices@, coordination, restore, live),
{
    match config {
        Err(error) => Err(error),
        Ok(config) => match coordination {
            Err(error) => Err(error),
            Ok(coordination) => Ok(
                LeadershipHydration {
                    config_context: true,
                    coordination_context: true,
                    config: normalize(config, choices),
                    coordination,
                    catalogue: restore.catalogue,
                    provenance: restore.provenance,
                    live,
                },
            ),
        },
    }
}

impl WindowView {
    /// Another try at the leader lock is scheduled.
    pub open spec fn schedule_leadership_retry(self) -> (WindowView, TaskView) {
        let generation = next_number(self.role.leadership_generation);
        (
            WindowView { role: Role { leadership_generation: generation, ..self.role }, ..self },
            TaskView::effect(Effect::LeadershipRetry { generation }),
        )
    }

    /// The state behind the lock is being read.
    pub open spec fn start_leadership_hydration(self) -> (WindowView, TaskView) {
        if !self.is_hydrating() {
            (self, TaskView::none())
        } else {
            let generation = next_number(self.role.leadership_hydration_generation);
            (
                WindowView {
                    role: Role { leadership_hydration_generation: generation, ..self.role },
                    ..self
                },
                TaskView::effect(
                    Effect::Hydrate {
                        generation,
                        state_generation: self.role.leadership_state_generation,
                        config_open: self.settings.config_context,
                        coordination_open: self.peers.coordination_context,
                    },
                ),
            )
        }
    }

    /// The current retry timer is used up.
    pub open spec fn retry_consumed(self) -> WindowView {
        WindowView {
            role: Role {
                leadership_generation: next_number(self.role.leadership_generation),
                ..self.role
            },
            ..self
        }
    }

    /// The retry timer fired.
    pub open spec fn on_leadership_tick(self, generation: u64) -> (WindowView, TaskView) {
        if generation != self.role.leadership_generation || self.is_active_leader() {
            (self, TaskView::none())
        } else if self.role.leadership.leader {
            self.retry_consumed().start_leadership_hydration()
        } else {
            (self, TaskView::call(Call::TryAcquireLeadership))
        }
    }

    /// The try at the leader lock was answered.
    pub open spec fn leadership_tried(self, acquired: bool) -> (WindowView, TaskView) {
        if self.role.leadership.leader {
            (self, TaskView::none())
        } else if !acquired {
            self.schedule_leadership_retry()
        } else {
            let w = self.retry_consumed();
            WindowView {
                role: Role {
                    leadership: Leadership { leader: true },
                    leader_readiness: LeaderReadiness::Hydrating,
                    ..w.role
                },
                ..w
            }.start_leadership_hydration()
        }
    }

    /// The state after a takeover snapshot was adopted, before any duty is
    /// armed.
    pub open spec fn hydrated(self, hydration: LeadershipHydration) -> WindowView {
        WindowView {
            role: Role { leader_readiness: LeaderReadiness::Ready, ..self.role },
            settings: SettingsView {
                config: hydration.config,
                config_context: self.settings.config_context || hydration.config_context,
                setting_write_queue: Seq::empty(),
                ..self.settings
            },
            peers: Peers {
                coordination: hydration.coordination,
                coordination_context: self.peers.coordination_context
                    || hydration.coordination_context,
                peer_apply_notice_generation: notice_generation(
                    hydration.coordination.apply_notice,
                ),
                peer_refresh_request: None,
                peer_refresh_covered: hydration.coordination.refresh_completion.request,
                peer_refresh_live_read: None,
                requested_peer_refresh: None,
                peer_refresh_write_pending: false,
                peer_refresh_timeout_generation: next_number(
                    self.peers.peer_refresh_timeout_generation,
                ),
                non_leader_reload_generation: next_number(self.peers.non_leader_reload_generation),
                ..self.peers
            },
            gallery: GalleryView {
                images: hydration.catalogue.images@,
                metadata_repair_due: hydration.provenance is Rebuilt,
                current: synced(hydration.live, self.gallery.current),
                cold_start: if hydration.catalogue.images@.len() == 0 && hydration.live is NoFile {
                    ColdStart::Pending
                } else {
                    ColdStart::Done
                },
                ..self.gallery
            },
            work: WorkView { refresh_pending: false, ..self.work },
            ..self
        }
    }

    /// The state behind the lock was read.
    pub open spec fn finish_leadership_hydration(
        self,
        generation: u64,
        state_generation: u64,
        result: Result<LeadershipHydration, String>,
    ) -> (WindowView, TaskView) {
        if !self.is_hydrating() || generation != self.role.leadership_hydration_generation {
            (self, TaskView::none())
        } else {
            match result {
                Err(_) => self.schedule_leadership_retry(),
                Ok(hydration) => if state_generation != self.role.leadership_state_generation {
                    self.start_leadership_hydration()
                } else {
                    self.hydrated(hydration).arm_leader_duties(hydration.live)
                },
            }
        }
    }

    /// The outstanding peer request, if any.
    pub open spec fn outstanding_request(self) -> Option<u64> {
        if self.peers.coordination.refresh_request
            > self.peers.coordination.refresh_completion.request {
            Some(self.peers.coordination.refresh_request)
        } else {
            None
        }
    }

    /// The leader's startup work.
    pub open spec fn arm_leader_duties(self, live: CurrentWallpaper) -> (WindowView, TaskView) {
        if !self.is_active_leader() {
            (self, TaskView::none())
        } else {
            let (w1, timer) = self.schedule_refresh(
                RefreshDelay::AfterPublication(newest_publication(self.gallery.images)),
            );
            let (w2, shuffle) = w1.sync_shuffle(false);
            let outstanding = self.outstanding_request();
            let repair = self.gallery.metadata_repair_due && self.gallery.images.len() > 0;
            let (w3, pass) = WindowView {
                gallery: GalleryView { metadata_repair_due: false, ..w2.gallery },
                ..w2
            }.start_thumbnail_pass_over(live);
            let (w4, refresh) = if outstanding is Some || repair {
                WindowView {
                    peers: Peers { peer_refresh_request: outstanding, ..w3.peers },
                    ..w3
                }.start_refresh_over(live)
            } else {
                (w3, TaskView::none())
            };
            (
                w4,
                timer.and(shuffle).and(pass).and(refresh).and(w4.accent_compute_for_current()),
            )
        }
    }

    /// The startup work of either role.
    pub open spec fn arm_initial_duties(self, live: CurrentWallpaper) -> (WindowView, TaskView) {
        if self.is_active_leader() {
            self.arm_leader_duties(live)
        } else {
            let (w1, retry) = self.schedule_leadership_retry();
            let w2 = WindowView {
                gallery: GalleryView { metadata_repair_due: false, ..w1.gallery },
                ..w1
            };
            let (w3, repair) = if self.gallery.metadata_repair_due {
                w2.request_follower_repair()
            } else {
                (w2, TaskView::none())
            };
            (w3, retry.and(repair))
        }
    }

    /// The state at startup, before any duty is armed.
    pub open spec fn booted(boot: Boot) -> WindowView {
        let blank = WindowView::blank();
        WindowView {
            role: Role { leadership: boot.leadership, ..blank.role },
            settings: SettingsView {
                config: normalized(boot.config, boot.choices@),
                choices: boot.choices@,
                config_context: boot.config_context,
                ..blank.settings
            },
            peers: Peers {
                coordination: boot.coordination,
                coordination_context: boot.coordination_context,
                peer_refresh_covered: boot.coordination.refresh_completion.request,
                peer_apply_notice_generation: notice_generation(boot.coordination.apply_notice),
                ..blank.peers
            },
            gallery: GalleryView {
                images: boot.restore.catalogue.images@,
                current: live_path(boot.live.file()),
                cold_start: if boot.restore.catalogue.images@.len() == 0 {
                    ColdStart::Pending
                } else {
                    ColdStart::Done
                },
                metadata_repair_due: boot.restore.provenance is Rebuilt,
                ..blank.gallery
            },
            timers: Timers { poke_config: boot.poke_config, ..blank.timers },
            accent: Accent { accent_handles: boot.accent_handles, ..blank.accent },
            ..blank
        }
    }
}

impl Window {
    /// Schedules another try at the leader lock.
    pub fn schedule_leadership_retry(&mut self) -> (task: Task)
        ensures
            final(self)@ == old(self)@.schedule_leadership_retry().0,
            task@ == old(self)@.schedule_leadership_retry().1,
    {
        let generation: u64 = next_generation(self.role.leadership_generation);
        self.role.leadership_generation = generation;
        Task::effect(Effect::LeadershipRetry { generation })
    }

    /// Reads everything a takeover needs. Only a process that holds the lock
    /// and has not read the state yet does.
    pub fn start_leadership_hydration(&mut self) -> (task: Task)
        ensures
            final(self)@ == old(self)@.start_leadership_hydration().0,
            task@ == old(self)@.start_leadership_hydration().1,
    {
        if !self.is_hydrating() {
            return Task::none();
        }
        let generation: u64 = next_generation(self.role.leadership_hydration_generation);
        self.role.leadership_hydration_generation = generation;
        Task::effect(
            Effect::Hydrate {
                generation,
                state_generation: self.role.leadership_state_generation,
                config_open: self.settings.config_context,
                coordination_open: self.peers.coordination_context,
            },
        )
    }

    /// The retry timer fired: try the lock, or read the state again when the
    /// lock is held already. A tick of an older generation is ignored, and a
    /// used one is invalidated before anything is started.
    pub fn on_leadership_tick(&mut self, generation: u64) -> (task: Task)
        ensures
            final(self)@ == old(self)@.on_leadership_tick(generation).0,
            task@ == old(self)@.on_leadership_tick(generation).1,
    {
        if generation != self.role.leadership_generation || self.is_active_leader() {
            return Task::none();
        }
        if self.role.leadership.is_leader() {
            self.role.leadership_generation = next_generation(self.role.leadership_generation);
            return self.start_leadership_hydration();
        }
        Task::call(Call::TryAcquireLeadership)
    }

    /// The try at the leader lock was answered. Having it is not enough: the
    /// process stays inert until the state behind it was read.
    pub fn leadership_tried(&mut self, acquired: bool) -> (task: Task)
        ensures
            final(self)@ == old(self)@.leadership_tried(acquired).0,
            task@ == old(self)@.leadership_tried(acquired).1,
    {
        if self.role.leadership.is_leader() {
            return Task::none();
        }
        if !acquired {
            return self.schedule_leadership_retry();
        }
        self.role.leadership = Leadership { leader: true };
        self.role.leader_readiness = LeaderReadiness::Hydrating;
        self.role.leadership_generation = next_generation(self.role.leadership_generation);
        self.start_leadership_hydration()
    }

    /// Adopts a takeover snapshot: everything it read, and none of the
    /// follower's own request state. Only a knowably empty display keeps the
    /// first-run apply; any other choice is left alone.
    fn adopt_hydration(&mut self, hydration: LeadershipHydration) -> (live: CurrentWallpaper)
        ensures
            final(self)@ == old(self)@.hydrated(hydration),
            live == hydration.live,
    {
        let no_file: bool = match &hydration.live {
            CurrentWallpaper::NoFile => true,
            _ => false,
        };
        let empty: bool = hydration.catalogue.images.len() == 0;
        if hydration.config_context {
            self.settings.config_context = true;
        }
        if hydration.coordination_context {
            self.peers.coordination_context = true;
        }
        self.settings.config = hydration.config;
        self.settings.setting_write_queue.clear();
        self.peers.peer_apply_notice_generation = generation_of(
            &hydration.coordination.apply_notice,
        );
        self.peers.peer_refresh_covered = hydration.coordination.refresh_completion.request;
        self.peers.coordination = hydration.coordination;
        self.peers.peer_refresh_request = None;
        self.peers.peer_refresh_live_read = None;
        self.peers.requested_peer_refresh = None;
        self.peers.peer_refresh_write_pending = false;
        self.peers.peer_refresh_timeout_generation = next_generation(
            self.peers.peer_refresh_timeout_generation,
        );
        self.peers.non_leader_reload_generation = next_generation(
            self.peers.non_leader_reload_generation,
        );
        self.gallery.catalogue = hydration.catalogue;
        self.gallery.metadata_repair_due = hydration.provenance == Provenance::Rebuilt;
        self.sync_current(&hydration.live);
        self.gallery.cold_start = if empty && no_file {
            ColdStart::Pending
        } else {
            ColdStart::Done
        };
        self.work.refresh_pending = false;
        self.role.leader_readiness = LeaderReadiness::Ready;
        hydration.live
    }

    /// The state behind the lock was read. A failed read is retried later, a
    /// snapshot that a watcher event made stale is read again at once, and a
    /// current one makes this process the active leader. Nothing else does.
    pub fn finish_leadership_hydration(
        &mut self,
        generation: u64,
        state_generation: u64,
        result: Result<LeadershipHydration, String>,
    ) -> (task: Task)
        requires
            old(self)@.is_hydrating() ==> old(self)@.timers.timer_generation < u64::MAX,
            old(self)@.is_hydrating() ==> old(self)@.timers.shuffle_generation < u64::MAX,
        ensures
            final(self)@ == old(self)@.finish_leadership_hydration(
                generation,
                state_generation,
                result,
            ).0,
            task@ == old(self)@.finish_leadership_hydration(generation, state_generation, result).1,
    {
        if !self.is_hydrating() || generation != self.role.leadership_hydration_generation {
            return Task::none();
        }
        match result {
            Err(_) => self.schedule_leadership_retry(),
            Ok(hydration) => {
                if state_generation != self.role.leadership_state_generation {
                    return self.start_leadership_hydration();
                }
                let live: CurrentWallpaper = self.adopt_hydration(hydration);
                self.arm_leader_duties(live)
            },
        }
    }

    /// Arms the leader's startup work: the refresh timer, the shuffle, the
    /// thumbnail pass, and an accent compute. The pass is armed in any case;
    /// a refresh is started beside it when a peer's request is outstanding or
    /// a rebuilt catalogue wants its descriptions, one refresh for both.
    pub fn arm_leader_duties(&mut self, live: CurrentWallpaper) -> (task: Task)
        requires
            old(self)@.is_active_leader() ==> old(self)@.timers.timer_generation < u64::MAX,
            old(self)@.is_active_leader() ==> old(self)@.timers.shuffle_generation < u64::MAX,
        ensures
            final(self)@ == old(self)@.arm_leader_duties(live).0,
            task@ == old(self)@.arm_leader_duties(live).1,
    {
        if !self.is_active_leader() {
            return Task::none();
        }
        let published: Option<String> = self.gallery.catalogue.newest_fullstartdate();
        let timer: Task = self.schedule_refresh(RefreshDelay::AfterPublication(published));
        let shuffle: Task = self.sync_shuffle(false);
        let outstanding: Option<u64> = if self.peers.coordination.refresh_request
            > self.peers.coordination.refresh_completion.request {
            Some(self.peers.coordination.refresh_request)
        } else {
            None
        };
        let repair: bool = self.gallery.metadata_repair_due && self.gallery.catalogue.images.len()
            > 0;
        self.gallery.metadata_repair_due = false;
        let pass: Task = self.start_thumbnail_pass_over(live.copy());
        let refresh: Task = if outstanding.is_some() || repair {
            self.peers.peer_refresh_request = outstanding;
            self.start_refresh_over(live)
        } else {
            Task::none()
        };
        let accent: Task = self.accent_compute_for_current();
        timer.and(shuffle).and(pass).and(refresh).and(accent)
    }

    /// Arms the startup work of this process's role. A follower watches for
    /// the leader's end, and asks it to repair a rebuilt catalogue.
    pub fn arm_initial_duties(&mut self, live: CurrentWallpaper) -> (task: Task)
        requires
            old(self)@.is_active_leader() ==> old(self)@.timers.timer_generation < u64::MAX,
            old(self)@.is_active_leader() ==> old(self)@.timers.shuffle_generation < u64::MAX,
        ensures
            final(self)@ == old(self)@.arm_initial_duties(live).0,
            task@ == old(self)@.arm_initial_duties(live).1,
    {
        if self.is_active_leader() {
            return self.arm_leader_duties(live);
        }
        let retry: Task = self.schedule_leadership_retry();
        let repair_due: bool = self.gallery.metadata_repair_due;
        self.gallery.metadata_repair_due = false;
        let repair: Task = if repair_due {
            self.request_follower_repair()
        } else {
            Task::none()
        };
        retry.and(repair)
    }

    /// Starts the applet from what the shell found out.
    pub fn init(boot: Boot) -> (started: (Window, Task))
        ensures
            started.0@ == WindowView::booted(boot).arm_initial_duties(boot.live).0,
            started.1@ == WindowView::booted(boot).arm_initial_duties(boot.live).1,
    {
        let live_file: Option<LiveFile> = boot.live.copy().into_file();
        let current: Option<PathBuf> = path_of(&live_file);
        let cold_start: ColdStart = if boot.restore.catalogue.images.len() == 0 {
            ColdStart::Pending
        } else {
            ColdStart::Done
        };
        let config: AppletConfig = normalize(boot.config, &boot.choices);
        let peer_apply_notice_generation: u64 = generation_of(&boot.coordination.apply_notice);
        let peer_refresh_covered: u64 = boot.coordination.refresh_completion.request;
        let mut window: Window = Window {
            popups: PopupLedger::default(),
            role: Role {
                leadership: boot.leadership,
                leader_readiness: LeaderReadiness::Ready,
                leadership_generation: 0,
                leadership_hydration_generation: 0,
                leadership_state_generation: 0,
            },
            settings: Settings {
                config,
                choices: boot.choices,
                config_context: boot.config_context,
                setting_write_generations: [0, 0, 0, 0],
                setting_write_queue: VecDeque::new(),
                setting_write_inflight: false,
                config_confirmation_generation: 0,
            },
            peers: Peers {
                coordination: boot.coordination,
                coordination_context: boot.coordination_context,
                peer_refresh_request: None,
                peer_refresh_covered,
                peer_refresh_live_read: None,
                requested_peer_refresh: None,
                peer_refresh_write_pending: false,
                peer_refresh_timeout_generation: 0,
                non_leader_reload_generation: 0,
                non_leader_reload_repairs: false,
                peer_apply_notice_generation,
            },
            gallery: Gallery {
                catalogue: boot.restore.catalogue,
                current,
                cold_start,
                protected_fallback: None,
                metadata_repair_due: boot.restore.provenance == Provenance::Rebuilt,
            },
            work: Work {
                refresh_pending: false,
                thumbnail_pass_pending: false,
                thumbnails_owed: false,
                last_updated: None,
                last_error: None,
            },
            timers: Timers {
                timer_generation: 0,
                shuffle_generation: 0,
                shuffle_armed: false,
                lock_poke_generation: 0,
                poke_config: boot.poke_config,
            },
            accent: Accent {
                accent_handles: boot.accent_handles,
                accent_write_generation: 0,
                accent_inflight: None,
                accent_recompute_queued: false,
                accent_flip_requested: None,
                accent_disk_enabled_at_spawn: None,
            },
        };
        assert(window@.settings.setting_write_generations
            == WindowView::blank().settings.setting_write_generations);
        assert(window@ == WindowView::booted(boot));
        let task: Task = window.arm_initial_duties(boot.live);
        (window, task)
    }
}

/// A watcher event during a takeover makes the snapshot being read stale: when
/// that one arrives nothing of it is adopted, no duty is armed, and a fresh
/// one is read.
pub proof fn a_watcher_event_forces_a_fresh_snapshot(
    window: WindowView,
    payload: AppletConfig,
    incoming: CoordinationConfig,
    hydration: LeadershipHydration,
    now: u64,
)
    requires
        window.is_hydrating(),
    ensures
        ({
            let seen = window.watcher_event();
            let (after, task) = seen.finish_leadership_hydration(
                window.role.leadership_hydration_generation,
                window.role.leadership_state_generation,
                Ok(hydration),
            );
            &&& window.config_updated(payload) == (seen, TaskView::none())
            &&& window.coordination_updated(incoming, now) == (seen, TaskView::none())
            &&& after.is_hydrating()
            &&& after.settings == window.settings && after.peers == window.peers
            &&& after.gallery == window.gallery
            &&& task.calls.len() == 0
            &&& task.effects == seq![
                Effect::Hydrate {
                    generation: after.role.leadership_hydration_generation,
                    state_generation: seen.role.leadership_state_generation,
                    config_open: window.settings.config_context,
                    coordination_open: window.peers.coordination_context,
                },
            ]
        }),
{
}

/// A takeover that fails arms no duty and adopts nothing; it is tried again
/// later.
pub proof fn a_failed_takeover_arms_nothing(
    window: WindowView,
    generation: u64,
    state_generation: u64,
    error: String,
)
    requires
        window.is_hydrating(),
    ensures
        ({
            let (after, task) = window.finish_leadership_hydration(
                generation,
                state_generation,
                Err(error),
            );
            &&& after.is_hydrating()
            &&& after.settings == window.settings && after.peers == window.peers
            &&& after.gallery == window.gallery
            &&& task.calls.len() == 0
            &&& generation == window.role.leadership_hydration_generation ==> task.effects == seq![
                Effect::LeadershipRetry { generation: after.role.leadership_generation },
            ]
        }),
{
}

/// A leader's duties always begin with a thumbnail pass and the refresh
/// timer; an outstanding request, or a rebuilt catalogue, adds a fetch that
/// leaves its thumbnails to that pass, and reserves the request.
pub proof fn a_leader_arms_its_duties(window: WindowView, live: CurrentWallpaper)
    requires
        window.is_active_leader(),
        window.has_headroom(),
    ensures
        ({
            let (after, task) = window.arm_leader_duties(live);
            let wanted = window.outstanding_request() is Some || (
            window.gallery.metadata_repair_due && window.gallery.images.len() > 0);
            &&& after.work.thumbnail_pass_pending
            &&& exists|i: int|
                0 <= i < task.effects.len() && #[trigger] task.effects[i] is ThumbnailPass
            &&& task.effects[0] == (Effect::RefreshTimer {
                generation: after.timers.timer_generation,
                delay: RefreshDelay::AfterPublication(newest_publication(window.gallery.images)),
            })
            &&& wanted ==> after.work.refresh_pending && after.peers.peer_refresh_request
                == window.outstanding_request()
            &&& wanted <==> exists|i: int|
                0 <= i < task.effects.len() && #[trigger] task.effects[i] is Refresh
            &&& forall|i: int|
                0 <= i < task.effects.len() ==> (#[trigger] task.effects[i] matches Effect::Refresh {
                    downloads,
                    backfill,
                } ==> backfill.deferred)
            &&& !after.gallery.metadata_repair_due
        }),
{
    let (w1, timer) = window.schedule_refresh(
        RefreshDelay::AfterPublication(newest_publication(window.gallery.images)),
    );
    let (w2, shuffle) = w1.sync_shuffle(false);
    let wanted = window.outstanding_request() is Some || (window.gallery.metadata_repair_due
        && window.gallery.images.len() > 0);
    let task = window.arm_leader_duties(live).1;
    let at = (1 + shuffle.effects.len()) as int;
    assert(task.effects[at] is ThumbnailPass);
    if wanted {
        assert(task.effects[at + 1] is Refresh);
    }
}

} // verus!
