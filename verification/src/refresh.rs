//! The refresh, the thumbnail passes, the prunes and the applies: everything
//! that changes the gallery.
//!
//! A refresh ends in four steps, each of which waits for the shell: merge the
//! fetched entries, prune, apply, and reschedule. They are run against the
//! state as it is then, never against what it was when the fetch started.

use vstd::prelude::*;
use crate::backfill::Backfill;
use crate::catalogue::{apply_target, target_is_a_held_image, target_of, ImageEntry};
use crate::coordination::{larger, later, PeerRefreshCompletion, PeerRefreshOutcome};
use crate::effect::{
    ApplyOutcome, ApplyReason, Call, Effect, LiveUse, MergeTail, Protected, PruneTail,
    RefreshTail, Task, TaskView,
};
use crate::fetch::{Downloads, RefreshBatch, RefreshError};
use crate::schedule::{
    download_horizon, horizon_for, next_generation, next_number, plan_applies,
    refresh_success_plan, RefreshDelay, RefreshSuccessPlan, ERROR_RETRY_SECS,
};
use crate::wallpaper::{
    effective_retention, is_ours, live_is_ours, live_path, path_of, prune_retention,
    should_auto_apply, synced, synced_current, ColdStart, CurrentWallpaper,
};
use crate::window::{GalleryView, Peers, Timers, Window, WindowView, WorkView};
use std::path::PathBuf;

verus! {

/// How a refresh went, as a peer is told.
pub open spec fn outcome_of(result: Result<RefreshBatch, RefreshError>) -> PeerRefreshOutcome {
    match result {
        Ok(_) => PeerRefreshOutcome::Success,
        Err(RefreshError::Network(_)) => PeerRefreshOutcome::Network,
        Err(RefreshError::Disk(_)) => PeerRefreshOutcome::Disk,
    }
}

/// The path of an optional catalogue entry.
pub open spec fn entry_path(entry: Option<ImageEntry>) -> Option<PathBuf> {
    match entry {
        Some(entry) => Some(entry.filename),
        None => None,
    }
}

/// What follows a prune outside of a refresh.
pub open spec fn housekeeping(shuffle_changed: bool, accent_flip: Option<bool>) -> PruneTail {
    PruneTail::Housekeeping { shuffle_changed, accent_flip }
}

impl WindowView {
    /// The applied file is what the display shows, as far as that is known.
    pub open spec fn sync_current(self, live: CurrentWallpaper) -> WindowView {
        WindowView {
            gallery: GalleryView { current: synced(live, self.gallery.current), ..self.gallery },
            ..self
        }
    }

    /// The files the deleting passes spare.
    pub open spec fn protected(self) -> Protected {
        Protected { current: self.gallery.current, fallback: self.gallery.protected_fallback }
    }

    /// Nothing writes into the thumbnail cache.
    pub open spec fn may_sweep_thumbnails(self) -> bool {
        !self.work.refresh_pending && !self.work.thumbnail_pass_pending
    }

    /// The prune over a display in state `live`, which the applied file has
    /// been synced with.
    pub open spec fn prune_synced(self, live: CurrentWallpaper, tail: PruneTail) -> TaskView {
        TaskView::call(
            Call::Prune {
                retention_days: effective_retention(live, self.settings.config.retention_days),
                protected: self.protected(),
                sweep: self.may_sweep_thumbnails(),
                tail,
            },
        )
    }

    /// A prune outside of a refresh.
    pub open spec fn prune_over(
        self,
        live: CurrentWallpaper,
        shuffle_changed: bool,
        accent_flip: Option<bool>,
    ) -> (WindowView, TaskView) {
        if !self.is_active_leader() {
            (self, TaskView::none())
        } else {
            let w = self.sync_current(live);
            (w, w.prune_synced(live, housekeeping(shuffle_changed, accent_flip)))
        }
    }

    /// A prune is wanted now.
    pub open spec fn prune_immediately(self, shuffle_changed: bool, accent_flip: Option<bool>)
        -> TaskView {
        if !self.is_active_leader() {
            TaskView::none()
        } else {
            TaskView::call(Call::ReadLive(LiveUse::Prune { shuffle_changed, accent_flip }))
        }
    }

    /// A refresh is wanted now.
    pub open spec fn start_refresh(self) -> TaskView {
        if !self.is_active_leader() || self.work.refresh_pending {
            TaskView::none()
        } else {
            TaskView::call(Call::ReadLive(LiveUse::StartRefresh))
        }
    }

    /// Whether an image a refresh brings may be applied over `live`.
    pub open spec fn fallback_permitted(self, live: CurrentWallpaper) -> bool {
        self.gallery.cold_start.over(live_path(live.file())) || live_is_ours(live.file())
    }

    /// A fetch starts.
    pub open spec fn start_refresh_over(self, live: CurrentWallpaper) -> (WindowView, TaskView) {
        if !self.is_active_leader() {
            (self, TaskView::none())
        } else {
            let days = self.settings.config.retention_days;
            let w = WindowView {
                work: WorkView { refresh_pending: true, ..self.work },
                ..self.sync_current(live)
            };
            (
                w,
                TaskView::effect(
                    Effect::Refresh {
                        downloads: Downloads {
                            horizon: horizon_for(days),
                            fallback: self.fallback_permitted(live),
                        },
                        backfill: Backfill {
                            deferred: self.work.thumbnail_pass_pending,
                            ..Backfill::policy(live, days, w.gallery.current)
                        },
                    },
                ),
            )
        }
    }

    /// A thumbnail pass starts.
    pub open spec fn start_thumbnail_pass_over(self, live: CurrentWallpaper) -> (
        WindowView,
        TaskView,
    ) {
        if !self.is_active_leader() {
            (self, TaskView::none())
        } else {
            let w = WindowView {
                work: WorkView {
                    thumbnail_pass_pending: true,
                    thumbnails_owed: false,
                    ..self.work
                },
                ..self.sync_current(live)
            };
            (
                w,
                TaskView::effect(
                    Effect::ThumbnailPass {
                        backfill: Backfill {
                            protected_fallback: self.gallery.protected_fallback,
                            ..Backfill::policy(
                                live,
                                self.settings.config.retention_days,
                                w.gallery.current,
                            )
                        },
                    },
                ),
            )
        }
    }

    /// The pass a deferred refresh owes is started, once nothing else runs.
    pub open spec fn settle_owed_thumbnails(self, live: CurrentWallpaper) -> (
        WindowView,
        TaskView,
    ) {
        if !self.work.thumbnails_owed || self.work.thumbnail_pass_pending
            || !self.is_active_leader() {
            (self, TaskView::none())
        } else {
            self.start_thumbnail_pass_over(live)
        }
    }

    /// A thumbnail pass ended.
    pub open spec fn finish_thumbnail_pass(self, live: CurrentWallpaper) -> (
        WindowView,
        TaskView,
    ) {
        let ended = WindowView {
            work: WorkView { thumbnail_pass_pending: false, ..self.work },
            ..self
        };
        if !ended.is_active_leader() {
            (ended, TaskView::none())
        } else {
            let sweep = if ended.may_sweep_thumbnails() {
                TaskView::call(Call::SweepThumbnails)
            } else {
                TaskView::none()
            };
            let (w, owed) = ended.settle_owed_thumbnails(live);
            (w, sweep.and(owed))
        }
    }

    /// A thumbnail pass ended, and a compute that found a cold cache is tried
    /// again.
    pub open spec fn thumbnails_ready(self, live: CurrentWallpaper) -> (WindowView, TaskView) {
        let (w, owed) = self.finish_thumbnail_pass(live);
        if !w.is_active_leader() {
            (w, TaskView::none())
        } else {
            (w, owed.and(w.accent_compute_for_current()))
        }
    }

    /// A wallpaper was applied.
    pub open spec fn on_apply_success(self, path: PathBuf) -> (WindowView, TaskView) {
        let w = WindowView {
            gallery: GalleryView {
                current: Some(path),
                cold_start: ColdStart::Done,
                ..self.gallery
            },
            ..self
        };
        (w, w.start_accent_compute(path))
    }

    /// A wallpaper could not be applied.
    pub open spec fn on_apply_failure(self, file_gone: bool) -> TaskView {
        if self.is_active_leader() && file_gone {
            self.prune_immediately(false, None)
        } else {
            TaskView::none()
        }
    }

    /// The peer request a finished refresh covers is taken, and remembered as
    /// covered.
    pub open spec fn cover_peer_request(self) -> WindowView {
        WindowView {
            peers: Peers {
                peer_refresh_request: None,
                peer_refresh_covered: match self.peers.peer_refresh_request {
                    Some(request) => larger(self.peers.peer_refresh_covered, request),
                    None => self.peers.peer_refresh_covered,
                },
                ..self.peers
            },
            ..self
        }
    }

    /// The acknowledgement of the peer request a refresh covers, if any.
    pub open spec fn acknowledge(self, request: Option<u64>, outcome: PeerRefreshOutcome)
        -> TaskView {
        match request {
            Some(request) => self.record_peer_refresh_completion(request, outcome),
            None => TaskView::none(),
        }
    }

    /// A fetch finished.
    pub open spec fn finish_refresh_over(
        self,
        result: Result<RefreshBatch, RefreshError>,
        live: CurrentWallpaper,
    ) -> (WindowView, TaskView) {
        let idle = WindowView {
            work: WorkView { refresh_pending: false, ..self.work },
            ..self
        };
        if !idle.is_active_leader() {
            (idle, TaskView::none())
        } else {
            let covered = idle.cover_peer_request();
            match result {
                Err(error) => {
                    let (w, retry) = WindowView {
                        work: WorkView { last_error: Some(error@), ..covered.work },
                        ..covered
                    }.schedule_refresh(RefreshDelay::Seconds(ERROR_RETRY_SECS));
                    (
                        w,
                        retry.and(
                            w.acknowledge(self.peers.peer_refresh_request, outcome_of(result)),
                        ),
                    )
                },
                Ok(batch) => {
                    let w = WindowView {
                        gallery: GalleryView {
                            protected_fallback: batch.fallback,
                            ..covered.gallery
                        },
                        ..covered
                    }.sync_current(live);
                    (
                        w,
                        TaskView::call(
                            Call::Merge {
                                fetched: batch.fetched,
                                ineligible: if batch.ineligible@.len() == 0 || live is Unknown {
                                    None
                                } else {
                                    Some(batch.ineligible)
                                },
                                protected: w.protected(),
                                tail: MergeTail {
                                    live,
                                    thumbnails_deferred: batch.thumbnails_deferred,
                                    refresh: RefreshTail {
                                        peer_request: self.peers.peer_refresh_request,
                                        delivered: batch.fetched@.len() > 0,
                                        live: live.file(),
                                        anchor: batch.anchor,
                                    },
                                },
                            },
                        ),
                    )
                },
            }
        }
    }

    /// The catalogue with other images.
    pub open spec fn with_images(self, images: Seq<ImageEntry>) -> WindowView {
        WindowView { gallery: GalleryView { images, ..self.gallery }, ..self }
    }

    /// The fetched entries were merged.
    pub open spec fn finish_merge(self, images: Seq<ImageEntry>, tail: MergeTail) -> (
        WindowView,
        TaskView,
    ) {
        let merged = self.with_images(images);
        let (w, owed) = WindowView {
            work: WorkView {
                thumbnails_owed: merged.work.thumbnails_owed || tail.thumbnails_deferred,
                ..merged.work
            },
            ..merged
        }.settle_owed_thumbnails(tail.live);
        (w, owed.and(w.prune_synced(tail.live, PruneTail::Refresh(tail.refresh))))
    }

    /// What is left of a settings change after its prune.
    pub open spec fn after_housekeeping(self, shuffle_changed: bool, accent_flip: Option<bool>)
        -> (WindowView, TaskView) {
        let (w1, shuffle) = self.sync_shuffle(false);
        let (w2, restart) = if shuffle_changed {
            w1.sync_shuffle(true)
        } else {
            (w1, TaskView::none())
        };
        match accent_flip {
            Some(enabled) => {
                let (w3, flip) = w2.set_accent_enabled(enabled, false);
                (w3, shuffle.and(restart).and(flip))
            },
            None => (w2, shuffle.and(restart)),
        }
    }

    /// The last step of a successful refresh: the timers, the acknowledgement.
    pub open spec fn refresh_done(self, tail: RefreshTail, accent: TaskView) -> (
        WindowView,
        TaskView,
    ) {
        let (w1, timer) = self.schedule_refresh(
            RefreshDelay::AfterPublication(Some(tail.anchor)),
        );
        let (w2, shuffle) = w1.sync_shuffle(false);
        (
            w2,
            timer.and(shuffle).and(accent).and(
                w2.acknowledge(tail.peer_request, PeerRefreshOutcome::Success),
            ),
        )
    }

    /// The cold start is spent.
    pub open spec fn spend_cold_start(self) -> WindowView {
        WindowView { gallery: GalleryView { cold_start: ColdStart::Done, ..self.gallery }, ..self }
    }

    /// Whether the refresh `tail` belongs to applies an image now.
    pub open spec fn applies_now(self, tail: RefreshTail) -> bool {
        plan_applies(
            self.gallery.cold_start.over(live_path(tail.live)),
            live_is_ours(tail.live),
            target_of(self.gallery.images, self.gallery.protected_fallback) is Some,
            tail.delivered,
        )
    }

    /// The rest of a refresh after its prune.
    pub open spec fn after_refresh_prune(self, tail: RefreshTail, now: u64) -> (
        WindowView,
        TaskView,
    ) {
        let w = WindowView {
            work: WorkView { last_updated: Some(now), last_error: None, ..self.work },
            ..self
        };
        match entry_path(target_of(self.gallery.images, self.gallery.protected_fallback)) {
            Some(path) => if self.applies_now(tail) {
                (w, TaskView::call(Call::Apply { path, why: ApplyReason::Refresh(tail) }))
            } else {
                w.spend_cold_start().refresh_done(tail, TaskView::none())
            },
            None => w.refresh_done(tail, TaskView::none()),
        }
    }

    /// A prune is done.
    pub open spec fn finish_prune(self, images: Seq<ImageEntry>, tail: PruneTail, now: u64) -> (
        WindowView,
        TaskView,
    ) {
        match tail {
            PruneTail::Housekeeping { shuffle_changed, accent_flip } => self.with_images(
                images,
            ).after_housekeeping(shuffle_changed, accent_flip),
            PruneTail::Refresh(tail) => self.with_images(images).after_refresh_prune(tail, now),
        }
    }

    /// The apply of a refresh was answered.
    pub open spec fn finish_auto_apply(
        self,
        path: PathBuf,
        tail: RefreshTail,
        outcome: ApplyOutcome,
    ) -> (WindowView, TaskView) {
        match outcome {
            ApplyOutcome::Applied => {
                let (w, accent) = WindowView {
                    gallery: GalleryView { protected_fallback: None, ..self.gallery },
                    ..self
                }.on_apply_success(path);
                w.refresh_done(tail, accent)
            },
            ApplyOutcome::Failed { file_gone } => WindowView {
                gallery: GalleryView {
                    cold_start: if self.gallery.cold_start is Done {
                        ColdStart::Done
                    } else {
                        ColdStart::RetryOver(live_path(tail.live))
                    },
                    ..self.gallery
                },
                ..self
            }.refresh_done(tail, TaskView::none()),
        }
    }

    /// The shuffle timer fired.
    pub open spec fn shuffle_due(self, generation: u64) -> (WindowView, TaskView) {
        if !self.is_active_leader() || generation != self.timers.shuffle_generation {
            (self, TaskView::none())
        } else {
            let w = WindowView {
                timers: Timers { shuffle_armed: false, ..self.timers },
                ..self
            };
            if !self.settings.config.shuffle_enabled {
                (w, TaskView::none())
            } else {
                (w, TaskView::call(Call::PickOther { current: self.gallery.current }))
            }
        }
    }

    /// The shuffle's image was picked.
    pub open spec fn shuffle_picked(self, pick: Option<PathBuf>) -> (WindowView, TaskView) {
        match pick {
            Some(path) => (
                self,
                TaskView::call(Call::Apply { path, why: ApplyReason::Shuffle }),
            ),
            None => self.sync_shuffle(false),
        }
    }

    /// The shuffle's apply was answered.
    pub open spec fn finish_shuffle_apply(self, path: PathBuf, outcome: ApplyOutcome) -> (
        WindowView,
        TaskView,
    ) {
        match outcome {
            ApplyOutcome::Applied => {
                let (w1, accent) = self.on_apply_success(path);
                let (w2, shuffle) = w1.sync_shuffle(false);
                (w2, accent.and(shuffle))
            },
            ApplyOutcome::Failed { file_gone } => if file_gone && self.is_active_leader() {
                (self, self.prune_immediately(false, None))
            } else {
                self.sync_shuffle(false)
            },
        }
    }

    /// The user's apply landed.
    pub open spec fn finish_manual_apply(self, path: PathBuf) -> (WindowView, TaskView) {
        if self.is_active_leader() {
            let (w1, accent) = self.on_apply_success(path);
            let (w2, shuffle) = w1.sync_shuffle(true);
            (w2, accent.and(shuffle))
        } else {
            let w = WindowView {
                gallery: GalleryView { current: Some(path), ..self.gallery },
                peers: Peers {
                    non_leader_reload_generation: next_number(
                        self.peers.non_leader_reload_generation,
                    ),
                    ..self.peers
                },
                ..self
            };
            (w, w.write_peer_apply_notice(path))
        }
    }

    /// An apply was answered.
    pub open spec fn applied(self, path: PathBuf, why: ApplyReason, outcome: ApplyOutcome) -> (
        WindowView,
        TaskView,
    ) {
        match why {
            ApplyReason::Manual => match outcome {
                ApplyOutcome::Applied => self.finish_manual_apply(path),
                ApplyOutcome::Failed { file_gone } => (self, self.on_apply_failure(file_gone)),
            },
            ApplyReason::Shuffle => self.finish_shuffle_apply(path, outcome),
            ApplyReason::Refresh(tail) => self.finish_auto_apply(path, tail, outcome),
        }
    }

    /// The displayed wallpaper was read.
    pub open spec fn live_read(self, purpose: LiveUse, live: CurrentWallpaper) -> (
        WindowView,
        TaskView,
    ) {
        match purpose {
            LiveUse::StartRefresh => self.start_refresh_over(live),
            LiveUse::Prune { shuffle_changed, accent_flip } => self.prune_over(
                live,
                shuffle_changed,
                accent_flip,
            ),
        }
    }
}

impl Window {
    /// Takes what the display shows for the applied file, so that the file
    /// the deleting passes protect is the one on screen.
    pub fn sync_current(&mut self, live: &CurrentWallpaper)
        ensures
            final(self)@ == old(self)@.sync_current(*live),
    {
        let known: Option<PathBuf> = self.gallery.current.take();
        self.gallery.current = synced_current(live, known);
    }

    /// The files the deleting passes spare.
    fn protected(&self) -> (protected: Protected)
        ensures
            protected == self@.protected(),
    {
        Protected {
            current: self.gallery.current.clone(),
            fallback: self.gallery.protected_fallback.clone(),
        }
    }

    /// Whether the thumbnail cache may be swept right now. A pass writes
    /// files before the catalogue knows of them, and a sweep in between would
    /// delete what it just produced; every pass ends in a sweep of its own.
    pub fn may_sweep_thumbnails(&self) -> (may: bool)
        ensures
            may == self@.may_sweep_thumbnails(),
    {
        !self.work.refresh_pending && !self.work.thumbnail_pass_pending
    }

    /// Prunes against the retention in force. Nothing is deleted for its age
    /// while the displayed file is unknowable.
    fn prune_synced(&self, live: &CurrentWallpaper, tail: PruneTail) -> (task: Task)
        ensures
            task@ == self@.prune_synced(*live, tail),
    {
        Task::call(
            Call::Prune {
                retention_days: prune_retention(live, self.settings.config.retention_days),
                protected: self.protected(),
                sweep: self.may_sweep_thumbnails(),
                tail,
            },
        )
    }

    /// Prunes over a display that was just read, protecting what it shows.
    pub fn prune_over(
        &mut self,
        live: CurrentWallpaper,
        shuffle_changed: bool,
        accent_flip: Option<bool>,
    ) -> (task: Task)
        ensures
            final(self)@ == old(self)@.prune_over(live, shuffle_changed, accent_flip).0,
            task@ == old(self)@.prune_over(live, shuffle_changed, accent_flip).1,
    {
        if !self.is_active_leader() {
            return Task::none();
        }
        self.sync_current(&live);
        self.prune_synced(&live, PruneTail::Housekeeping { shuffle_changed, accent_flip })
    }

    /// Asks for a prune now: the retention was reduced, or an image vanished.
    pub fn prune_immediately(&self, shuffle_changed: bool, accent_flip: Option<bool>) -> (task:
        Task)
        ensures
            task@ == self@.prune_immediately(shuffle_changed, accent_flip),
    {
        if !self.is_active_leader() {
            return Task::none();
        }
        Task::call(Call::ReadLive(LiveUse::Prune { shuffle_changed, accent_flip }))
    }

    /// Asks for a refresh unless one is running. The display is read first:
    /// the backfill must see the state the prune after it sees.
    pub fn start_refresh(&self) -> (task: Task)
        ensures
            task@ == self@.start_refresh(),
    {
        if !self.is_active_leader() || self.work.refresh_pending {
            return Task::none();
        }
        Task::call(Call::ReadLive(LiveUse::StartRefresh))
    }

    /// Whether a refresh started over `live` may download the one image out
    /// of retention. That image exists only to be applied, so the rule is the
    /// one the completion applies by: over the display, not over the file the
    /// applet last applied itself.
    pub fn fallback_permitted(&self, live: &CurrentWallpaper) -> (permitted: bool)
        ensures
            permitted == self@.fallback_permitted(*live),
    {
        match live {
            CurrentWallpaper::File(file) => should_auto_apply(
                self.gallery.cold_start.applies_over(Some(&file.path)),
                file.ours,
            ),
            CurrentWallpaper::NoFile => should_auto_apply(
                self.gallery.cold_start.applies_over(None),
                false,
            ),
            CurrentWallpaper::Unknown => should_auto_apply(
                self.gallery.cold_start.applies_over(None),
                false,
            ),
        }
    }

    /// Starts a fetch over a display that was just read. While a thumbnail
    /// pass owns the cache the fetch writes no thumbnails.
    pub fn start_refresh_over(&mut self, live: CurrentWallpaper) -> (task: Task)
        ensures
            final(self)@ == old(self)@.start_refresh_over(live).0,
            task@ == old(self)@.start_refresh_over(live).1,
    {
        if !self.is_active_leader() {
            return Task::none();
        }
        self.work.refresh_pending = true;
        let days: u16 = self.settings.config.retention_days;
        self.sync_current(&live);
        let downloads: Downloads = Downloads {
            horizon: download_horizon(days),
            fallback: self.fallback_permitted(&live),
        };
        let mut backfill: Backfill = Backfill::new(&live, days, self.gallery.current.clone());
        backfill.deferred = self.work.thumbnail_pass_pending;
        Task::effect(Effect::Refresh { downloads, backfill })
    }

    /// Starts the pass that generates missing thumbnails, with no network
    /// involved. It works over the whole catalogue, so it covers every debt
    /// booked so far.
    pub fn start_thumbnail_pass_over(&mut self, live: CurrentWallpaper) -> (task: Task)
        ensures
            final(self)@ == old(self)@.start_thumbnail_pass_over(live).0,
            task@ == old(self)@.start_thumbnail_pass_over(live).1,
    {
        if !self.is_active_leader() {
            return Task::none();
        }
        self.work.thumbnail_pass_pending = true;
        self.work.thumbnails_owed = false;
        self.sync_current(&live);
        let mut backfill: Backfill = Backfill::new(
            &live,
            self.settings.config.retention_days,
            self.gallery.current.clone(),
        );
        backfill.protected_fallback = self.gallery.protected_fallback.clone();
        Task::effect(Effect::ThumbnailPass { backfill })
    }

    /// Starts the pass a deferred refresh owes, if one is owed and none is
    /// running. Both ends of the overlap call this, so whichever of the two
    /// ends last pays the debt.
    pub fn settle_owed_thumbnails(&mut self, live: CurrentWallpaper) -> (task: Task)
        ensures
            final(self)@ == old(self)@.settle_owed_thumbnails(live).0,
            task@ == old(self)@.settle_owed_thumbnails(live).1,
    {
        if !self.work.thumbnails_owed || self.work.thumbnail_pass_pending
            || !self.is_active_leader() {
            return Task::none();
        }
        self.start_thumbnail_pass_over(live)
    }

    /// A thumbnail pass ended: sweep what a prune left alone meanwhile, and
    /// pay what a refresh left owed.
    pub fn finish_thumbnail_pass(&mut self, live: CurrentWallpaper) -> (task: Task)
        ensures
            final(self)@ == old(self)@.finish_thumbnail_pass(live).0,
            task@ == old(self)@.finish_thumbnail_pass(live).1,
    {
        self.work.thumbnail_pass_pending = false;
        if !self.is_active_leader() {
            return Task::none();
        }
        let sweep: Task = if self.may_sweep_thumbnails() {
            Task::call(Call::SweepThumbnails)
        } else {
            Task::none()
        };
        sweep.and(self.settle_owed_thumbnails(live))
    }

    /// A thumbnail pass ended. An accent compute may have found a cold cache
    /// before, so it is tried again.
    pub fn thumbnails_ready(&mut self, live: CurrentWallpaper) -> (task: Task)
        ensures
            final(self)@ == old(self)@.thumbnails_ready(live).0,
            task@ == old(self)@.thumbnails_ready(live).1,
    {
        let owed: Task = self.finish_thumbnail_pass(live);
        if !self.is_active_leader() {
            return Task::none();
        }
        owed.and(self.accent_compute_for_current())
    }

    /// What every successful apply does: remember the file and spend the cold
    /// start, whose only purpose is that some wallpaper gets applied once.
    pub fn on_apply_success(&mut self, path: PathBuf) -> (task: Task)
        ensures
            final(self)@ == old(self)@.on_apply_success(path).0,
            task@ == old(self)@.on_apply_success(path).1,
    {
        self.gallery.current = Some(path.clone());
        self.gallery.cold_start = ColdStart::Done;
        self.start_accent_compute(path)
    }

    /// An apply failed: a vanished image leaves the catalogue at once, where
    /// this process owns the catalogue.
    pub fn on_apply_failure(&self, file_gone: bool) -> (task: Task)
        ensures
            task@ == self@.on_apply_failure(file_gone),
    {
        if self.is_active_leader() && file_gone {
            self.prune_immediately(false, None)
        } else {
            Task::none()
        }
    }

    /// Acknowledges the peer request a refresh covers, if there is one.
    fn acknowledge(&self, request: Option<u64>, outcome: PeerRefreshOutcome) -> (task: Task)
        ensures
            task@ == self@.acknowledge(request, outcome),
    {
        match request {
            Some(request) => self.record_peer_refresh_completion(request, outcome),
            None => Task::none(),
        }
    }

    /// A fetch finished. A failure is recorded and retried later; a success
    /// protects its fallback and goes on with the merge. Images the archive
    /// marks unusable are removed with it, unless the displayed file is
    /// unknowable. In both cases the peer request it covers is settled.
    pub fn finish_refresh_over(
        &mut self,
        result: Result<RefreshBatch, RefreshError>,
        live: CurrentWallpaper,
    ) -> (task: Task)
        requires
            old(self)@.is_active_leader() ==> old(self)@.timers.timer_generation < u64::MAX,
        ensures
            final(self)@ == old(self)@.finish_refresh_over(result, live).0,
            task@ == old(self)@.finish_refresh_over(result, live).1,
    {
        self.work.refresh_pending = false;
        if !self.is_active_leader() {
            return Task::none();
        }
        let peer_request: Option<u64> = self.peers.peer_refresh_request;
        self.peers.peer_refresh_request = None;
        if let Some(request) = peer_request {
            self.peers.peer_refresh_covered = later(self.peers.peer_refresh_covered, request);
        }
        match result {
            Err(error) => {
                let outcome: PeerRefreshOutcome = match &error {
                    RefreshError::Network(_) => PeerRefreshOutcome::Network,
                    RefreshError::Disk(_) => PeerRefreshOutcome::Disk,
                };
                self.work.last_error = Some(error);
                let retry: Task = self.schedule_refresh(RefreshDelay::Seconds(ERROR_RETRY_SECS));
                retry.and(self.acknowledge(peer_request, outcome))
            },
            Ok(batch) => {
                self.gallery.protected_fallback = batch.fallback;
                self.sync_current(&live);
                let delivered: bool = batch.fetched.len() > 0;
                let knowable: bool = match &live {
                    CurrentWallpaper::Unknown => false,
                    _ => true,
                };
                let ineligible: Option<Vec<String>> = if batch.ineligible.len() == 0 || !knowable {
                    None
                } else {
                    Some(batch.ineligible)
                };
                let refresh: RefreshTail = RefreshTail {
                    peer_request,
                    delivered,
                    live: live.copy().into_file(),
                    anchor: batch.anchor,
                };
                Task::call(
                    Call::Merge {
                        fetched: batch.fetched,
                        ineligible,
                        protected: self.protected(),
                        tail: MergeTail {
                            live,
                            thumbnails_deferred: batch.thumbnails_deferred,
                            refresh,
                        },
                    },
                )
            },
        }
    }

    /// The fetched entries were merged into the live catalogue: book the
    /// thumbnails the fetch withheld, start the pass they are owed if nothing
    /// else runs, and prune.
    pub fn finish_merge(&mut self, images: Vec<ImageEntry>, tail: MergeTail) -> (task: Task)
        ensures
            final(self)@ == old(self)@.finish_merge(images@, tail).0,
            task@ == old(self)@.finish_merge(images@, tail).1,
    {
        self.gallery.catalogue.images = images;
        self.work.thumbnails_owed = self.work.thumbnails_owed || tail.thumbnails_deferred;
        let owed: Task = self.settle_owed_thumbnails(tail.live.copy());
        owed.and(self.prune_synced(&tail.live, PruneTail::Refresh(tail.refresh)))
    }

    /// What is left of a settings change after its prune: the shuffle timer
    /// follows the catalogue, restarts if its setting changed, and an accent
    /// flip is carried out.
    fn after_housekeeping(&mut self, shuffle_changed: bool, accent_flip: Option<bool>) -> (task:
        Task)
        requires
            old(self)@.is_active_leader() ==> old(self)@.timers.shuffle_generation < u64::MAX - 1,
            old(self)@.accent.accent_write_generation < u64::MAX,
        ensures
            final(self)@ == old(self)@.after_housekeeping(shuffle_changed, accent_flip).0,
            task@ == old(self)@.after_housekeeping(shuffle_changed, accent_flip).1,
    {
        let shuffle: Task = self.sync_shuffle(false);
        let restart: Task = if shuffle_changed {
            self.sync_shuffle(true)
        } else {
            Task::none()
        };
        match accent_flip {
            Some(enabled) => {
                let flip: Task = self.set_accent_enabled(enabled, false);
                shuffle.and(restart).and(flip)
            },
            None => shuffle.and(restart),
        }
    }

    /// The last step of a successful refresh: schedule the next one off the
    /// response's publication time, let a grown catalogue unlock the shuffle,
    /// and acknowledge the peer request.
    fn refresh_done(&mut self, tail: RefreshTail, accent: Task) -> (task: Task)
        requires
            old(self)@.is_active_leader() ==> old(self)@.timers.timer_generation < u64::MAX,
            old(self)@.is_active_leader() ==> old(self)@.timers.shuffle_generation < u64::MAX,
        ensures
            final(self)@ == old(self)@.refresh_done(tail, accent@).0,
            task@ == old(self)@.refresh_done(tail, accent@).1,
    {
        let timer: Task = self.schedule_refresh(RefreshDelay::AfterPublication(Some(tail.anchor)));
        let shuffle: Task = self.sync_shuffle(false);
        let acknowledgement: Task = self.acknowledge(
            tail.peer_request,
            PeerRefreshOutcome::Success,
        );
        timer.and(shuffle).and(accent).and(acknowledgement)
    }

    /// The rest of a refresh after its prune: apply the fallback it brought,
    /// else the newest image, where the rules allow it. A refresh that has
    /// something to apply and does not, because the user picked another
    /// wallpaper, spends the cold start; one that has nothing keeps it armed.
    fn after_refresh_prune(&mut self, tail: RefreshTail, now: u64) -> (task: Task)
        requires
            old(self)@.is_active_leader() ==> old(self)@.timers.timer_generation < u64::MAX,
            old(self)@.is_active_leader() ==> old(self)@.timers.shuffle_generation < u64::MAX,
        ensures
            final(self)@ == old(self)@.after_refresh_prune(tail, now).0,
            task@ == old(self)@.after_refresh_prune(tail, now).1,
    {
        self.work.last_updated = Some(now);
        self.work.last_error = None;
        let fallback: Option<&PathBuf> = self.gallery.protected_fallback.as_ref();
        let target: Option<PathBuf> = match apply_target(&self.gallery.catalogue, fallback) {
            Some(entry) => Some(entry.filename.clone()),
            None => None,
        };
        let cold: bool = match &tail.live {
            Some(file) => self.gallery.cold_start.applies_over(Some(&file.path)),
            None => self.gallery.cold_start.applies_over(None),
        };
        let plan: RefreshSuccessPlan = refresh_success_plan(
            cold,
            is_ours(&tail.live),
            target.is_some(),
            tail.delivered,
            tail.anchor.clone(),
        );
        match target {
            Some(path) => if plan.auto_apply {
                Task::call(Call::Apply { path, why: ApplyReason::Refresh(tail) })
            } else {
                self.gallery.cold_start = ColdStart::Done;
                self.refresh_done(tail, Task::none())
            },
            None => self.refresh_done(tail, Task::none()),
        }
    }

    /// A prune is done; `images` is what it left.
    pub fn finish_prune(&mut self, images: Vec<ImageEntry>, tail: PruneTail, now: u64) -> (task:
        Task)
        requires
            old(self)@.is_active_leader() ==> old(self)@.timers.timer_generation < u64::MAX,
            old(self)@.is_active_leader() ==> old(self)@.timers.shuffle_generation < u64::MAX - 1,
            old(self)@.accent.accent_write_generation < u64::MAX,
        ensures
            final(self)@ == old(self)@.finish_prune(images@, tail, now).0,
            task@ == old(self)@.finish_prune(images@, tail, now).1,
    {
        self.gallery.catalogue.images = images;
        match tail {
            PruneTail::Housekeeping { shuffle_changed, accent_flip } => self.after_housekeeping(
                shuffle_changed,
                accent_flip,
            ),
            PruneTail::Refresh(tail) => self.after_refresh_prune(tail, now),
        }
    }

    /// The apply of a refresh was answered. Once applied, the fallback is
    /// protected as the wallpaper on display; a failed cold-start apply is
    /// retried by the next refresh, but only over the display it failed on.
    pub fn finish_auto_apply(&mut self, path: PathBuf, tail: RefreshTail, outcome: ApplyOutcome)
        -> (task: Task)
        requires
            old(self)@.is_active_leader() ==> old(self)@.timers.timer_generation < u64::MAX,
            old(self)@.is_active_leader() ==> old(self)@.timers.shuffle_generation < u64::MAX,
        ensures
            final(self)@ == old(self)@.finish_auto_apply(path, tail, outcome).0,
            task@ == old(self)@.finish_auto_apply(path, tail, outcome).1,
    {
        match outcome {
            ApplyOutcome::Applied => {
                self.gallery.protected_fallback = None;
                let accent: Task = self.on_apply_success(path);
                self.refresh_done(tail, accent)
            },
            ApplyOutcome::Failed { file_gone } => {
                if !self.gallery.cold_start.is_done() {
                    self.gallery.cold_start = ColdStart::RetryOver(path_of(&tail.live));
                }
                self.refresh_done(tail, Task::none())
            },
        }
    }

    /// The shuffle timer fired. A tick of an older generation is ignored.
    pub fn shuffle_due(&mut self, generation: u64) -> (task: Task)
        ensures
            final(self)@ == old(self)@.shuffle_due(generation).0,
            task@ == old(self)@.shuffle_due(generation).1,
    {
        if !self.is_active_leader() || generation != self.timers.shuffle_generation {
            return Task::none();
        }
        self.timers.shuffle_armed = false;
        if !self.settings.config.shuffle_enabled {
            return Task::none();
        }
        Task::call(Call::PickOther { current: self.gallery.current.clone() })
    }

    /// An image other than the applied one was picked, if there is one. A
    /// tick starts a fresh cycle in any case.
    pub fn shuffle_picked(&mut self, pick: Option<PathBuf>) -> (task: Task)
        requires
            old(self)@.is_active_leader() ==> old(self)@.timers.shuffle_generation < u64::MAX,
        ensures
            final(self)@ == old(self)@.shuffle_picked(pick).0,
            task@ == old(self)@.shuffle_picked(pick).1,
    {
        match pick {
            Some(path) => Task::call(Call::Apply { path, why: ApplyReason::Shuffle }),
            None => self.sync_shuffle(false),
        }
    }

    /// The shuffle's apply was answered. A vanished image leaves the
    /// catalogue before the next cycle starts.
    pub fn finish_shuffle_apply(&mut self, path: PathBuf, outcome: ApplyOutcome) -> (task: Task)
        requires
            old(self)@.is_active_leader() ==> old(self)@.timers.shuffle_generation < u64::MAX,
        ensures
            final(self)@ == old(self)@.finish_shuffle_apply(path, outcome).0,
            task@ == old(self)@.finish_shuffle_apply(path, outcome).1,
    {
        match outcome {
            ApplyOutcome::Applied => {
                let accent: Task = self.on_apply_success(path);
                accent.and(self.sync_shuffle(false))
            },
            ApplyOutcome::Failed { file_gone } => if file_gone && self.is_active_leader() {
                self.prune_immediately(false, None)
            } else {
                self.sync_shuffle(false)
            },
        }
    }

    /// The user's apply landed. A follower updates only its own view and the
    /// mailbox; the leader alone spends the cold start, owns the shuffle
    /// countdown and enters the accent lifecycle.
    pub fn finish_manual_apply(&mut self, path: PathBuf) -> (task: Task)
        requires
            old(self)@.is_active_leader() ==> old(self)@.timers.shuffle_generation < u64::MAX,
        ensures
            final(self)@ == old(self)@.finish_manual_apply(path).0,
            task@ == old(self)@.finish_manual_apply(path).1,
    {
        if self.is_active_leader() {
            let accent: Task = self.on_apply_success(path);
            return accent.and(self.sync_shuffle(true));
        }
        self.gallery.current = Some(path.clone());
        self.peers.non_leader_reload_generation = next_generation(
            self.peers.non_leader_reload_generation,
        );
        self.write_peer_apply_notice(path)
    }

    /// An apply was answered.
    pub fn applied(&mut self, path: PathBuf, why: ApplyReason, outcome: ApplyOutcome) -> (task:
        Task)
        requires
            old(self)@.is_active_leader() ==> old(self)@.timers.timer_generation < u64::MAX,
            old(self)@.is_active_leader() ==> old(self)@.timers.shuffle_generation < u64::MAX,
        ensures
            final(self)@ == old(self)@.applied(path, why, outcome).0,
            task@ == old(self)@.applied(path, why, outcome).1,
    {
        match why {
            ApplyReason::Manual => match outcome {
                ApplyOutcome::Applied => self.finish_manual_apply(path),
                ApplyOutcome::Failed { file_gone } => self.on_apply_failure(file_gone),
            },
            ApplyReason::Shuffle => self.finish_shuffle_apply(path, outcome),
            ApplyReason::Refresh(tail) => self.finish_auto_apply(path, tail, outcome),
        }
    }

    /// The displayed wallpaper was read for `purpose`.
    pub fn live_read(&mut self, purpose: LiveUse, live: CurrentWallpaper) -> (task: Task)
        ensures
            final(self)@ == old(self)@.live_read(purpose, live).0,
            task@ == old(self)@.live_read(purpose, live).1,
    {
        match purpose {
            LiveUse::StartRefresh => self.start_refresh_over(live),
            LiveUse::Prune { shuffle_changed, accent_flip } => self.prune_over(
                live,
                shuffle_changed,
                accent_flip,
            ),
        }
    }
}

/// An acknowledgement of `request`, in this outcome, is part of `task`.
pub open spec fn acknowledges(task: TaskView, request: u64, outcome: PeerRefreshOutcome) -> bool {
    task.effects.contains(
        Effect::RecordCompletion {
            completion: PeerRefreshCompletion { request, outcome },
        },
    )
}

/// A fetch that failed leaves the images and the applied wallpaper as they
/// are, says why, answers the peer that asked for it, and is tried again
/// after the retry time.
pub proof fn a_failed_fetch_is_retried(
    window: WindowView,
    error: RefreshError,
    live: CurrentWallpaper,
)
    requires
        window.is_active_leader(),
        window.has_headroom(),
    ensures
        ({
            let (after, task) = window.finish_refresh_over(Err(error), live);
            &&& after.gallery == window.gallery
            &&& after.work.last_error == Some(error@)
            &&& after.work.last_updated == window.work.last_updated
            &&& !after.work.refresh_pending
            &&& task.calls.len() == 0
            &&& task.effects[0] == (Effect::RefreshTimer {
                generation: after.timers.timer_generation,
                delay: RefreshDelay::Seconds(ERROR_RETRY_SECS),
            })
            &&& window.peers.coordination_context
                && window.peers.peer_refresh_request is Some ==> acknowledges(
                task,
                window.peers.peer_refresh_request->0,
                outcome_of(Err(error)),
            )
        }),
{
    let (after, task) = window.finish_refresh_over(Err(error), live);
    if window.peers.coordination_context && window.peers.peer_refresh_request is Some {
        assert(task.effects[1] is RecordCompletion);
        assert(task.effects.contains(task.effects[1]));
    }
}

/// A fetch that succeeded runs through its steps in order (merge, prune,
/// perhaps an apply) and then answers the peer request that was reserved for
/// it when it finished, whatever the catalogue turned out to hold and however
/// the apply went.
pub proof fn a_successful_fetch_answers_its_request(
    window: WindowView,
    batch: RefreshBatch,
    live: CurrentWallpaper,
    merged: Seq<ImageEntry>,
    pruned: Seq<ImageEntry>,
    outcome: ApplyOutcome,
    now: u64,
)
    requires
        window.is_active_leader(),
        window.has_headroom(),
        window.peers.coordination_context,
        window.peers.peer_refresh_request is Some,
    ensures
        ({
            let request = window.peers.peer_refresh_request->0;
            let (w1, t1) = window.finish_refresh_over(Ok(batch), live);
            &&& t1.calls.len() == 1 && t1.effects.len() == 0
            &&& t1.calls[0] matches Call::Merge { fetched, ineligible, protected, tail }
            &&& {
                let (w2, t2) = w1.finish_merge(merged, tail);
                let (w3, t3) = w2.finish_prune(pruned, PruneTail::Refresh(tail.refresh), now);
                &&& t2.calls.len() == 1
                &&& t2.calls[0] matches Call::Prune { tail: follows, .. } && follows
                    == PruneTail::Refresh(tail.refresh)
                &&& acknowledges(t3, request, PeerRefreshOutcome::Success) || {
                    &&& t3.calls.len() == 1
                    &&& t3.calls[0] matches Call::Apply { path, why } && why
                        == ApplyReason::Refresh(tail.refresh) && acknowledges(
                        w3.finish_auto_apply(path, tail.refresh, outcome).1,
                        request,
                        PeerRefreshOutcome::Success,
                    )
                }
            }
        }),
{
    let request = window.peers.peer_refresh_request->0;
    let (w1, t1) = window.finish_refresh_over(Ok(batch), live);
    if let Call::Merge { fetched, ineligible, protected, tail } = t1.calls[0] {
        let (w2, t2) = w1.finish_merge(merged, tail);
        let pruned_window = w2.with_images(pruned);
        let w = WindowView {
            work: WorkView { last_updated: Some(now), last_error: None, ..pruned_window.work },
            ..pruned_window
        };
        done_acknowledges(w, tail.refresh, TaskView::none());
        done_acknowledges(w.spend_cold_start(), tail.refresh, TaskView::none());
        match entry_path(target_of(pruned, w2.gallery.protected_fallback)) {
            Some(path) => {
                let (applied, accent) = WindowView {
                    gallery: GalleryView { protected_fallback: None, ..w.gallery },
                    ..w
                }.on_apply_success(path);
                done_acknowledges(applied, tail.refresh, accent);
                let failed = WindowView {
                    gallery: GalleryView {
                        cold_start: if w.gallery.cold_start is Done {
                            ColdStart::Done
                        } else {
                            ColdStart::RetryOver(live_path(tail.refresh.live))
                        },
                        ..w.gallery
                    },
                    ..w
                };
                done_acknowledges(failed, tail.refresh, TaskView::none());
            },
            None => {},
        }
    }
}

proof fn done_acknowledges(window: WindowView, tail: RefreshTail, accent: TaskView)
    requires
        window.is_active_leader(),
        window.peers.coordination_context,
        tail.peer_request is Some,
    ensures
        acknowledges(
            window.refresh_done(tail, accent).1,
            tail.peer_request->0,
            PeerRefreshOutcome::Success,
        ),
{
    let task = window.refresh_done(tail, accent).1;
    assert(task.effects.last() is RecordCompletion);
    assert(task.effects.contains(task.effects.last()));
}

/// What a fetch may download to apply, and whether the refresh then applies
/// it, are decided alike: over the same display, with the same cold start, a
/// delivered image is applied exactly where the download of an image beyond
/// the retention was permitted.
pub proof fn a_permitted_fallback_is_applied(
    window: WindowView,
    live: CurrentWallpaper,
    tail: RefreshTail,
)
    requires
        tail.live == live.file(),
        tail.delivered,
        target_of(window.gallery.images, window.gallery.protected_fallback) is Some,
    ensures
        window.applies_now(tail) == window.fallback_permitted(live),
{
}

/// Any wallpaper applied spends the cold start, and an apply the cold start
/// was refused waits for the display it was refused over.
pub proof fn an_apply_spends_the_cold_start(window: WindowView, path: PathBuf, tail: RefreshTail)
    ensures
        window.on_apply_success(path).0.gallery.cold_start is Done,
        window.on_apply_success(path).0.gallery.current == Some(path),
        window.finish_auto_apply(path, tail, ApplyOutcome::Applied).0.gallery.cold_start is Done,
        window.finish_auto_apply(path, tail, ApplyOutcome::Applied).0.gallery.protected_fallback
            is None,
        forall|file_gone: bool|
            (#[trigger] window.finish_auto_apply(
                path,
                tail,
                ApplyOutcome::Failed { file_gone },
            )).0.gallery.cold_start == (if window.gallery.cold_start is Done {
                ColdStart::Done
            } else {
                ColdStart::RetryOver(live_path(tail.live))
            }),
{
}

/// A shuffle, once switched off or left with fewer than two images, has no
/// tick pending; otherwise it has one.
pub proof fn the_shuffle_follows_the_state(window: WindowView, reset_countdown: bool)
    requires
        window.is_active_leader(),
        window.has_headroom(),
    ensures
        window.sync_shuffle(reset_countdown).0.timers.shuffle_armed == window.shuffles(),
        !window.shuffles() ==> window.sync_shuffle(reset_countdown).1 == TaskView::none(),
        window.shuffles() && reset_countdown ==> window.sync_shuffle(
            reset_countdown,
        ).1.effects == seq![
            Effect::ShuffleTimer {
                generation: window.sync_shuffle(
                    reset_countdown,
                ).0.timers.shuffle_generation,
                interval_secs: window.settings.config.shuffle_interval_secs,
            },
        ],
{
}

/// A refresh after the cold start applies nothing over a wallpaper that is
/// not the applet's own, nor over a display that is not knowable; and one
/// that brought nothing applies nothing at all.
pub proof fn a_users_wallpaper_is_never_replaced(window: WindowView, tail: RefreshTail, now: u64)
    requires
        window.gallery.cold_start is Done,
        !live_is_ours(tail.live) || !tail.delivered,
    ensures
        window.after_refresh_prune(tail, now).1.calls.len() == 0,
        window.after_refresh_prune(tail, now).0.gallery.current == window.gallery.current,
{
}

/// What a refresh applies is an image the catalogue holds after the merge and
/// the prune: the fallback where it is still held, else the newest.
pub proof fn a_refresh_applies_a_held_image(window: WindowView, tail: RefreshTail, now: u64)
    requires
        window.after_refresh_prune(tail, now).1.calls.len() > 0,
    ensures
        window.after_refresh_prune(tail, now).1.calls.len() == 1,
        window.after_refresh_prune(tail, now).1.calls[0] matches Call::Apply { path, why } && why
            == ApplyReason::Refresh(tail) && exists|i: int|
            0 <= i < window.gallery.images.len() && (#[trigger] window.gallery.images[i]).filename
                == path,
{
    let target = target_of(window.gallery.images, window.gallery.protected_fallback);
    target_is_a_held_image(
        window.gallery.images,
        window.gallery.protected_fallback,
    );
    let i = choose|i: int|
        0 <= i < window.gallery.images.len() && window.gallery.images[i] == target->0;
    assert(window.gallery.images[i].filename == target->0.filename);
}

} // verus!
