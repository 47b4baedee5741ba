//! The conversation with the other processes: a follower asks the leader for
//! a refresh and waits to be answered, and tells it of wallpapers it applied.

use vstd::prelude::*;
use crate::catalogue::{NonLeaderReload, Provenance};
use crate::coordination::{
    copy_notice, generation_of, larger, later, merge_coordination, merged,
    merging_twice_is_merging_once, notice_generation, CoordinationConfig, PeerApplyNotice,
    PeerRefreshCompletion, PeerRefreshOutcome,
};
use crate::effect::{Effect, Task, TaskView};
use crate::fetch::{RefreshError, RefreshErrorView};
use crate::schedule::{next_generation, next_number};
use crate::wallpaper::CurrentWallpaper;
use crate::window::{Peers, Role, Window, WindowView, WorkView};
use std::path::PathBuf;

verus! {

impl WindowView {
    /// The acknowledgement of a peer's request.
    pub open spec fn record_peer_refresh_completion(
        self,
        request: u64,
        outcome: PeerRefreshOutcome,
    ) -> TaskView {
        if self.peers.coordination_context {
            TaskView::effect(
                Effect::RecordCompletion { completion: PeerRefreshCompletion { request, outcome } },
            )
        } else {
            TaskView::none()
        }
    }

    /// The notice of a follower's apply.
    pub open spec fn write_peer_apply_notice(self, path: PathBuf) -> TaskView {
        if self.peers.coordination_context {
            TaskView::effect(Effect::WriteApplyNotice { path })
        } else {
            TaskView::none()
        }
    }

    /// The refresh button.
    pub open spec fn refresh_now(self) -> (WindowView, TaskView) {
        if self.is_active_leader() {
            (self, self.start_refresh())
        } else if self.work.refresh_pending || self.peers.peer_refresh_write_pending
            || !self.peers.coordination_context {
            (self, TaskView::none())
        } else {
            (
                WindowView {
                    peers: Peers { peer_refresh_write_pending: true, ..self.peers },
                    ..self
                },
                TaskView::effect(Effect::RequestPeerRefresh),
            )
        }
    }

    /// A follower asks for the repair of a rebuilt catalogue.
    pub open spec fn request_follower_repair(self) -> (WindowView, TaskView) {
        if self.gallery.images.len() == 0 || self.work.refresh_pending
            || self.peers.peer_refresh_write_pending {
            (self, TaskView::none())
        } else {
            self.refresh_now()
        }
    }

    /// A follower reads catalogue and display anew.
    pub open spec fn request_non_leader_reload(self, may_repair: bool) -> (WindowView, TaskView) {
        if self.role.leadership.leader {
            (self, TaskView::none())
        } else {
            let generation = next_number(self.peers.non_leader_reload_generation);
            (
                WindowView {
                    peers: Peers {
                        non_leader_reload_generation: generation,
                        non_leader_reload_repairs: may_repair,
                        ..self.peers
                    },
                    ..self
                },
                TaskView::effect(Effect::Reload { generation }),
            )
        }
    }

    /// A follower's reload finished.
    pub open spec fn finish_non_leader_reload(
        self,
        generation: u64,
        result: Result<NonLeaderReload, String>,
    ) -> (WindowView, TaskView) {
        if self.role.leadership.leader || generation != self.peers.non_leader_reload_generation {
            (self, TaskView::none())
        } else {
            match result {
                Ok(reload) => {
                    let w = self.with_images(reload.catalogue.images@).sync_current(reload.live);
                    if self.peers.non_leader_reload_repairs && reload.provenance is Rebuilt {
                        w.request_follower_repair()
                    } else {
                        (w, TaskView::none())
                    }
                },
                Err(_) => (self, TaskView::none()),
            }
        }
    }

    /// A request is settled, one way or the other.
    pub open spec fn request_settled(self) -> WindowView {
        WindowView {
            peers: Peers {
                requested_peer_refresh: None,
                peer_refresh_timeout_generation: next_number(
                    self.peers.peer_refresh_timeout_generation,
                ),
                ..self.peers
            },
            work: WorkView { refresh_pending: false, ..self.work },
            ..self
        }
    }

    /// The follower's status after the leader's answer.
    pub open spec fn show_outcome(self, outcome: PeerRefreshOutcome, now: u64) -> WindowView {
        WindowView {
            work: match outcome {
                PeerRefreshOutcome::Success => WorkView {
                    last_updated: Some(now),
                    last_error: None,
                    ..self.work
                },
                PeerRefreshOutcome::Network => WorkView {
                    last_error: Some(RefreshErrorView::Network(Seq::empty())),
                    ..self.work
                },
                PeerRefreshOutcome::Disk => WorkView {
                    last_error: Some(RefreshErrorView::Disk(Seq::empty())),
                    ..self.work
                },
            },
            ..self
        }
    }

    /// The leader's answer is held against the request waited for.
    pub open spec fn settle_peer_refresh(self, completion: PeerRefreshCompletion, now: u64) -> (
        WindowView,
        TaskView,
    ) {
        match self.peers.requested_peer_refresh {
            None => (self, TaskView::none()),
            Some(request) => if self.is_active_leader() || completion.request < request {
                (self, TaskView::none())
            } else {
                self.request_settled().show_outcome(
                    completion.outcome,
                    now,
                ).request_non_leader_reload(false)
            },
        }
    }

    /// The request was written to the mailbox, or could not be.
    pub open spec fn finish_peer_refresh_request(self, result: Result<u64, String>, now: u64) -> (
        WindowView,
        TaskView,
    ) {
        let written = WindowView {
            peers: Peers { peer_refresh_write_pending: false, ..self.peers },
            ..self
        };
        if written.is_active_leader() {
            (written, TaskView::none())
        } else {
            match result {
                Err(_) => (written, TaskView::none()),
                Ok(request) => {
                    let generation = next_number(self.peers.peer_refresh_timeout_generation);
                    let w = WindowView {
                        peers: Peers {
                            coordination: CoordinationConfig {
                                refresh_request: larger(
                                    self.peers.coordination.refresh_request,
                                    request,
                                ),
                                ..self.peers.coordination
                            },
                            requested_peer_refresh: Some(request),
                            peer_refresh_timeout_generation: generation,
                            ..written.peers
                        },
                        work: WorkView { refresh_pending: true, ..written.work },
                        ..written
                    };
                    if self.peers.coordination.refresh_completion.request >= request {
                        w.settle_peer_refresh(self.peers.coordination.refresh_completion, now)
                    } else {
                        (w, TaskView::effect(Effect::PeerRefreshTimer { generation, request }))
                    }
                },
            }
        }
    }

    /// The leader did not answer in time.
    pub open spec fn timeout_peer_refresh(self, generation: u64, request: u64) -> (
        WindowView,
        TaskView,
    ) {
        if self.is_active_leader() || generation != self.peers.peer_refresh_timeout_generation
            || self.peers.requested_peer_refresh != Some(request) {
            (self, TaskView::none())
        } else {
            self.request_settled().request_non_leader_reload(true)
        }
    }

    /// The highest request known to be covered.
    pub open spec fn covered_request(self) -> u64 {
        larger(
            self.peers.coordination.refresh_completion.request,
            self.peers.peer_refresh_covered,
        )
    }

    /// The requests outstanding are reserved for one fetch.
    pub open spec fn consume_peer_refresh_request(self) -> (WindowView, TaskView) {
        let request = self.peers.coordination.refresh_request;
        if !self.is_active_leader() || request <= self.covered_request() {
            (self, TaskView::none())
        } else {
            let w = WindowView {
                peers: Peers {
                    peer_refresh_request: Some(
                        larger(
                            match self.peers.peer_refresh_request {
                                Some(reserved) => reserved,
                                None => 0,
                            },
                            request,
                        ),
                    ),
                    ..self.peers
                },
                ..self
            };
            if self.work.refresh_pending || self.peers.peer_refresh_live_read is Some {
                (w, TaskView::none())
            } else {
                (
                    WindowView {
                        peers: Peers { peer_refresh_live_read: Some(request), ..w.peers },
                        ..w
                    },
                    TaskView::effect(Effect::ReadLiveForPeer { request }),
                )
            }
        }
    }

    /// The display was read for the fetch a peer asked for.
    pub open spec fn finish_peer_refresh_live_read(self, request: u64, live: CurrentWallpaper) -> (
        WindowView,
        TaskView,
    ) {
        if self.peers.peer_refresh_live_read != Some(request) {
            (self, TaskView::none())
        } else {
            let w = WindowView {
                peers: Peers { peer_refresh_live_read: None, ..self.peers },
                ..self
            };
            if !self.is_active_leader() || self.work.refresh_pending {
                (w, TaskView::none())
            } else {
                match self.peers.peer_refresh_request {
                    None => (w, TaskView::none()),
                    Some(reserved) => if reserved <= self.covered_request() {
                        (
                            WindowView {
                                peers: Peers { peer_refresh_request: None, ..w.peers },
                                ..w
                            },
                            TaskView::none(),
                        )
                    } else {
                        w.start_refresh_over(live)
                    },
                }
            }
        }
    }

    /// A peer's apply is noticed.
    pub open spec fn consume_peer_apply_notice(self, notice: Option<PeerApplyNotice>) -> (
        WindowView,
        TaskView,
    ) {
        match notice {
            Some(notice) => if !self.is_active_leader() || notice.generation
                <= self.peers.peer_apply_notice_generation {
                (self, TaskView::none())
            } else {
                (
                    WindowView {
                        peers: Peers {
                            peer_apply_notice_generation: notice.generation,
                            ..self.peers
                        },
                        ..self
                    },
                    TaskView::effect(Effect::ValidateApply { generation: notice.generation }),
                )
            },
            None => (self, TaskView::none()),
        }
    }

    /// The display was read for a peer's apply.
    pub open spec fn finish_peer_apply_validation(self, generation: u64, live: CurrentWallpaper)
        -> (WindowView, TaskView) {
        if !self.is_active_leader() || generation != self.peers.peer_apply_notice_generation {
            (self, TaskView::none())
        } else {
            match live {
                CurrentWallpaper::File(file) => self.on_apply_success(file.path),
                _ => (self, TaskView::none()),
            }
        }
    }

    /// A watcher event was seen; a takeover snapshot taken before is stale.
    pub open spec fn watcher_event(self) -> WindowView {
        WindowView {
            role: Role {
                leadership_state_generation: next_number(self.role.leadership_state_generation),
                ..self.role
            },
            ..self
        }
    }

    /// The mailbox changed.
    pub open spec fn coordination_updated(self, incoming: CoordinationConfig, now: u64) -> (
        WindowView,
        TaskView,
    ) {
        let seen = self.watcher_event();
        if seen.is_hydrating() {
            (seen, TaskView::none())
        } else {
            let known = merged(self.peers.coordination, incoming);
            let w = WindowView { peers: Peers { coordination: known, ..seen.peers }, ..seen };
            if w.is_active_leader() {
                let (w1, refresh) = w.consume_peer_refresh_request();
                let (w2, apply) = w1.consume_peer_apply_notice(known.apply_notice);
                (w2, refresh.and(apply))
            } else {
                w.settle_peer_refresh(known.refresh_completion, now)
            }
        }
    }

    /// The acknowledgement of a peer's request was written.
    pub open spec fn completion_written(
        self,
        completion: PeerRefreshCompletion,
        result: Result<bool, String>,
    ) -> WindowView {
        let newer = completion.request > self.peers.coordination.refresh_completion.request;
        if result == Ok::<bool, String>(true) && newer {
            WindowView {
                peers: Peers {
                    coordination: CoordinationConfig {
                        refresh_completion: completion,
                        ..self.peers.coordination
                    },
                    ..self.peers
                },
                ..self
            }
        } else {
            self
        }
    }

    /// The notice of an apply was written.
    pub open spec fn notice_written(self, result: Result<PeerApplyNotice, String>) -> WindowView {
        match result {
            Ok(notice) => if notice.generation > notice_generation(
                self.peers.coordination.apply_notice,
            ) {
                WindowView {
                    peers: Peers {
                        coordination: CoordinationConfig {
                            apply_notice: Some(notice),
                            ..self.peers.coordination
                        },
                        ..self.peers
                    },
                    ..self
                }
            } else {
                self
            },
            Err(_) => self,
        }
    }
}

impl Window {
    /// Acknowledges a peer's refresh request in the mailbox.
    pub fn record_peer_refresh_completion(&self, request: u64, outcome: PeerRefreshOutcome)
        -> (task: Task)
        ensures
            task@ == self@.record_peer_refresh_completion(request, outcome),
    {
        if !self.peers.coordination_context {
            return Task::none();
        }
        Task::effect(
            Effect::RecordCompletion { completion: PeerRefreshCompletion { request, outcome } },
        )
    }

    /// Leaves the evidence of a follower's apply in the mailbox.
    pub fn write_peer_apply_notice(&self, path: PathBuf) -> (task: Task)
        ensures
            task@ == self@.write_peer_apply_notice(path),
    {
        if !self.peers.coordination_context {
            return Task::none();
        }
        Task::effect(Effect::WriteApplyNotice { path })
    }

    /// The popup's refresh button. The leader fetches; a follower asks it to,
    /// at most once at a time.
    pub fn refresh_now(&mut self) -> (task: Task)
        ensures
            final(self)@ == old(self)@.refresh_now().0,
            task@ == old(self)@.refresh_now().1,
    {
        if self.is_active_leader() {
            return self.start_refresh();
        }
        if self.work.refresh_pending || self.peers.peer_refresh_write_pending {
            return Task::none();
        }
        if !self.peers.coordination_context {
            return Task::none();
        }
        self.peers.peer_refresh_write_pending = true;
        Task::effect(Effect::RequestPeerRefresh)
    }

    /// A follower found a rebuilt catalogue: it must not fetch itself, so it
    /// asks the leader for one refresh, unless one is asked for already or
    /// there is nothing to repair.
    pub fn request_follower_repair(&mut self) -> (task: Task)
        ensures
            final(self)@ == old(self)@.request_follower_repair().0,
            task@ == old(self)@.request_follower_repair().1,
    {
        if self.gallery.catalogue.images.len() == 0 {
            return Task::none();
        }
        if self.work.refresh_pending || self.peers.peer_refresh_write_pending {
            return Task::none();
        }
        self.refresh_now()
    }

    /// Reads a follower's catalogue and display anew. Every newer reload,
    /// local apply and takeover invalidates it. `may_repair` says whether a
    /// rebuilt catalogue found by it may turn into a request to the leader.
    pub fn request_non_leader_reload(&mut self, may_repair: bool) -> (task: Task)
        ensures
            final(self)@ == old(self)@.request_non_leader_reload(may_repair).0,
            task@ == old(self)@.request_non_leader_reload(may_repair).1,
    {
        if self.role.leadership.is_leader() {
            return Task::none();
        }
        let generation: u64 = next_generation(self.peers.non_leader_reload_generation);
        self.peers.non_leader_reload_generation = generation;
        self.peers.non_leader_reload_repairs = may_repair;
        Task::effect(Effect::Reload { generation })
    }

    /// Adopts a follower's snapshot while it is still current.
    pub fn finish_non_leader_reload(
        &mut self,
        generation: u64,
        result: Result<NonLeaderReload, String>,
    ) -> (task: Task)
        ensures
            final(self)@ == old(self)@.finish_non_leader_reload(generation, result).0,
            task@ == old(self)@.finish_non_leader_reload(generation, result).1,
    {
        if self.role.leadership.is_leader() || generation
            != self.peers.non_leader_reload_generation {
            return Task::none();
        }
        match result {
            Ok(reload) => {
                self.gallery.catalogue = reload.catalogue;
                self.sync_current(&reload.live);
                if self.peers.non_leader_reload_repairs && reload.provenance
                    == Provenance::Rebuilt {
                    return self.request_follower_repair();
                }
                Task::none()
            },
            Err(_) => Task::none(),
        }
    }

    /// Marks the request as settled.
    fn request_settled(&mut self)
        ensures
            final(self)@ == old(self)@.request_settled(),
    {
        self.peers.requested_peer_refresh = None;
        self.work.refresh_pending = false;
        self.peers.peer_refresh_timeout_generation = next_generation(
            self.peers.peer_refresh_timeout_generation,
        );
    }

    /// Shows the outcome the leader reported.
    fn show_outcome(&mut self, outcome: PeerRefreshOutcome, now: u64)
        ensures
            final(self)@ == old(self)@.show_outcome(outcome, now),
    {
        match outcome {
            PeerRefreshOutcome::Success => {
                self.work.last_updated = Some(now);
                self.work.last_error = None;
            },
            PeerRefreshOutcome::Network => {
                self.work.last_error = Some(RefreshError::Network(String::new()));
            },
            PeerRefreshOutcome::Disk => {
                self.work.last_error = Some(RefreshError::Disk(String::new()));
            },
        }
    }

    /// Holds the leader's answer against the request this follower waits for.
    /// An answer that covers it settles it, whatever the outcome. The reload
    /// this leads to must not ask again, or a leader that is offline would be
    /// asked on every answer.
    pub fn settle_peer_refresh(&mut self, completion: PeerRefreshCompletion, now: u64) -> (task:
        Task)
        ensures
            final(self)@ == old(self)@.settle_peer_refresh(completion, now).0,
            task@ == old(self)@.settle_peer_refresh(completion, now).1,
    {
        match self.peers.requested_peer_refresh {
            None => Task::none(),
            Some(request) => {
                if self.is_active_leader() || completion.request < request {
                    return Task::none();
                }
                self.request_settled();
                self.show_outcome(completion.outcome, now);
                self.request_non_leader_reload(false)
            },
        }
    }

    /// The request was written to the mailbox, or could not be. Only now does
    /// the popup show a pending refresh. An answer may have been seen before.
    pub fn finish_peer_refresh_request(&mut self, result: Result<u64, String>, now: u64) -> (task:
        Task)
        ensures
            final(self)@ == old(self)@.finish_peer_refresh_request(result, now).0,
            task@ == old(self)@.finish_peer_refresh_request(result, now).1,
    {
        self.peers.peer_refresh_write_pending = false;
        if self.is_active_leader() {
            return Task::none();
        }
        match result {
            Err(_) => Task::none(),
            Ok(request) => {
                let generation: u64 = next_generation(self.peers.peer_refresh_timeout_generation);
                self.peers.coordination.refresh_request = later(
                    self.peers.coordination.refresh_request,
                    request,
                );
                self.peers.requested_peer_refresh = Some(request);
                self.work.refresh_pending = true;
                self.peers.peer_refresh_timeout_generation = generation;
                let completion: PeerRefreshCompletion = self.peers.coordination.refresh_completion;
                if completion.request >= request {
                    return self.settle_peer_refresh(completion, now);
                }
                Task::effect(Effect::PeerRefreshTimer { generation, request })
            },
        }
    }

    /// The leader did not answer in time: stop presenting the refresh as
    /// pending and reload. This is where a rebuilt catalogue may ask again.
    pub fn timeout_peer_refresh(&mut self, generation: u64, request: u64) -> (task: Task)
        ensures
            final(self)@ == old(self)@.timeout_peer_refresh(generation, request).0,
            task@ == old(self)@.timeout_peer_refresh(generation, request).1,
    {
        if self.is_active_leader() || generation != self.peers.peer_refresh_timeout_generation
            || self.peers.requested_peer_refresh != Some(request) {
            return Task::none();
        }
        self.request_settled();
        self.request_non_leader_reload(true)
    }

    /// The highest request known to be covered, whether or not the
    /// acknowledgement was seen in the mailbox.
    fn covered_request(&self) -> (covered: u64)
        ensures
            covered == self@.covered_request(),
    {
        later(
            self.peers.coordination.refresh_completion.request,
            self.peers.peer_refresh_covered,
        )
    }

    /// Reserves every outstanding request for the fetch in flight, or reads
    /// the display to start one. The reservation comes first, so that any
    /// fetch started meanwhile answers it too.
    pub fn consume_peer_refresh_request(&mut self) -> (task: Task)
        ensures
            final(self)@ == old(self)@.consume_peer_refresh_request().0,
            task@ == old(self)@.consume_peer_refresh_request().1,
    {
        if !self.is_active_leader() {
            return Task::none();
        }
        let request: u64 = self.peers.coordination.refresh_request;
        if request <= self.covered_request() {
            return Task::none();
        }
        let reserved: u64 = match self.peers.peer_refresh_request {
            Some(reserved) => reserved,
            None => 0,
        };
        self.peers.peer_refresh_request = Some(later(reserved, request));
        if self.work.refresh_pending || self.peers.peer_refresh_live_read.is_some() {
            return Task::none();
        }
        self.peers.peer_refresh_live_read = Some(request);
        Task::effect(Effect::ReadLiveForPeer { request })
    }

    /// The display was read for the fetch a peer asked for. Nothing starts if
    /// the reading was superseded, a fetch runs already, or the request was
    /// covered meanwhile.
    pub fn finish_peer_refresh_live_read(&mut self, request: u64, live: CurrentWallpaper) -> (task:
        Task)
        ensures
            final(self)@ == old(self)@.finish_peer_refresh_live_read(request, live).0,
            task@ == old(self)@.finish_peer_refresh_live_read(request, live).1,
    {
        if self.peers.peer_refresh_live_read != Some(request) {
            return Task::none();
        }
        self.peers.peer_refresh_live_read = None;
        if !self.is_active_leader() || self.work.refresh_pending {
            return Task::none();
        }
        match self.peers.peer_refresh_request {
            None => Task::none(),
            Some(reserved) => {
                if reserved <= self.covered_request() {
                    self.peers.peer_refresh_request = None;
                    return Task::none();
                }
                self.start_refresh_over(live)
            },
        }
    }

    /// Observes a newer apply of a peer. The notice is evidence only: what is
    /// displayed is read before anything follows from it.
    pub fn consume_peer_apply_notice(&mut self, notice: Option<PeerApplyNotice>) -> (task: Task)
        ensures
            final(self)@ == old(self)@.consume_peer_apply_notice(notice).0,
            task@ == old(self)@.consume_peer_apply_notice(notice).1,
    {
        if !self.is_active_leader() {
            return Task::none();
        }
        match notice {
            None => Task::none(),
            Some(notice) => {
                if notice.generation <= self.peers.peer_apply_notice_generation {
                    return Task::none();
                }
                self.peers.peer_apply_notice_generation = notice.generation;
                Task::effect(Effect::ValidateApply { generation: notice.generation })
            },
        }
    }

    /// The display was read for a peer's apply. Only the newest notice counts,
    /// and only a display that shows one file.
    pub fn finish_peer_apply_validation(&mut self, generation: u64, live: CurrentWallpaper) -> (
        task: Task)
        ensures
            final(self)@ == old(self)@.finish_peer_apply_validation(generation, live).0,
            task@ == old(self)@.finish_peer_apply_validation(generation, live).1,
    {
        if !self.is_active_leader() || generation != self.peers.peer_apply_notice_generation {
            return Task::none();
        }
        match live {
            CurrentWallpaper::File(file) => self.on_apply_success(file.path),
            CurrentWallpaper::NoFile => Task::none(),
            CurrentWallpaper::Unknown => Task::none(),
        }
    }

    /// Invalidates a takeover snapshot that was taken before this event.
    pub fn watcher_event(&mut self)
        ensures
            final(self)@ == old(self)@.watcher_event(),
    {
        self.role.leadership_state_generation = next_generation(
            self.role.leadership_state_generation,
        );
    }

    /// The mailbox changed. During a takeover nothing is adopted: the state
    /// will be read afresh.
    pub fn coordination_updated(&mut self, incoming: CoordinationConfig, now: u64) -> (task: Task)
        ensures
            final(self)@ == old(self)@.coordination_updated(incoming, now).0,
            task@ == old(self)@.coordination_updated(incoming, now).1,
    {
        self.watcher_event();
        if self.is_hydrating() {
            return Task::none();
        }
        merge_coordination(&mut self.peers.coordination, incoming);
        let completion: PeerRefreshCompletion = self.peers.coordination.refresh_completion;
        let apply_notice: Option<PeerApplyNotice> = copy_notice(
            &self.peers.coordination.apply_notice,
        );
        if self.is_active_leader() {
            let refresh: Task = self.consume_peer_refresh_request();
            let apply: Task = self.consume_peer_apply_notice(apply_notice);
            return refresh.and(apply);
        }
        self.settle_peer_refresh(completion, now)
    }

    /// The acknowledgement of a peer's request was written; it is taken over
    /// only if it really was, and is newer.
    pub fn completion_written(
        &mut self,
        completion: PeerRefreshCompletion,
        result: Result<bool, String>,
    )
        ensures
            final(self)@ == old(self)@.completion_written(completion, result),
    {
        match result {
            Ok(wrote) => {
                if wrote && completion.request
                    > self.peers.coordination.refresh_completion.request {
                    self.peers.coordination.refresh_completion = completion;
                }
            },
            Err(_) => {},
        }
    }

    /// The notice of an apply was written.
    pub fn notice_written(&mut self, result: Result<PeerApplyNotice, String>)
        ensures
            final(self)@ == old(self)@.notice_written(result),
    {
        match result {
            Ok(notice) => {
                if notice.generation > generation_of(
                    &self.peers.coordination.apply_notice,
                ) {
                    self.peers.coordination.apply_notice = Some(notice);
                }
            },
            Err(_) => {},
        }
    }
}

/// A request that a fetch has covered is never fetched for again.
pub proof fn covered_requests_start_nothing(window: WindowView)
    requires
        window.peers.coordination.refresh_request <= window.covered_request(),
    ensures
        window.consume_peer_refresh_request() == (window, TaskView::none()),
{
}

/// Requests that arrive while a fetch runs, or is about to start, share one:
/// they are reserved together, and start nothing of their own.
pub proof fn requests_in_one_fetch_coalesce(window: WindowView)
    requires
        window.work.refresh_pending || window.peers.peer_refresh_live_read is Some,
    ensures
        window.consume_peer_refresh_request().1 == TaskView::none(),
        window.is_active_leader() && window.peers.coordination.refresh_request
            > window.covered_request() ==> {
            &&& window.consume_peer_refresh_request().0.peers.peer_refresh_request matches Some(
                reserved,
            )
            &&& reserved >= window.peers.coordination.refresh_request
            &&& window.peers.peer_refresh_request matches Some(earlier) ==> reserved >= earlier
        },
{
}

/// A mailbox delivered a second time leads to nothing, in either role.
pub proof fn a_repeated_mailbox_starts_nothing(
    window: WindowView,
    incoming: CoordinationConfig,
    now: u64,
    later_on: u64,
)
    ensures
        window.coordination_updated(incoming, now).0.coordination_updated(
            incoming,
            later_on,
        ).1 == TaskView::none(),
{
    merging_twice_is_merging_once(window.peers.coordination, incoming);
}

/// A follower's request ends one way or the other: a completion that covers
/// it, in whatever outcome, and the timeout of this very request both leave
/// nothing pending, and both read catalogue and display anew.
pub proof fn a_settled_request_leaves_nothing_pending(
    window: WindowView,
    completion: PeerRefreshCompletion,
    now: u64,
)
    requires
        !window.role.leadership.leader,
        window.peers.requested_peer_refresh is Some,
        completion.request >= window.peers.requested_peer_refresh->0,
    ensures
        ({
            let request = window.peers.requested_peer_refresh->0;
            let answered = window.settle_peer_refresh(completion, now);
            let timed_out = window.timeout_peer_refresh(
                window.peers.peer_refresh_timeout_generation,
                request,
            );
            &&& answered.0.peers.requested_peer_refresh is None
            &&& !answered.0.work.refresh_pending
            &&& answered.1.effects == seq![
                Effect::Reload { generation: answered.0.peers.non_leader_reload_generation },
            ]
            &&& timed_out.0.peers.requested_peer_refresh is None
            &&& !timed_out.0.work.refresh_pending
            &&& timed_out.1.effects == seq![
                Effect::Reload { generation: timed_out.0.peers.non_leader_reload_generation },
            ]
        }),
{
}

/// The reload after an answered request asks for no repair: a repair that
/// cannot help would otherwise be asked for again and again.
pub proof fn an_answered_request_asks_no_more(
    window: WindowView,
    completion: PeerRefreshCompletion,
    now: u64,
    reload: NonLeaderReload,
)
    requires
        !window.role.leadership.leader,
        window.peers.requested_peer_refresh is Some,
        completion.request >= window.peers.requested_peer_refresh->0,
    ensures
        ({
            let settled = window.settle_peer_refresh(completion, now).0;
            settled.finish_non_leader_reload(
                settled.peers.non_leader_reload_generation,
                Ok(reload),
            ).1 == TaskView::none()
        }),
{
}

/// While a follower waits for an answer it asks for nothing again: neither
/// the button nor a rebuilt catalogue doubles a request.
pub proof fn a_pending_request_is_not_doubled(window: WindowView)
    requires
        !window.is_active_leader(),
        window.work.refresh_pending || window.peers.peer_refresh_write_pending,
    ensures
        window.refresh_now() == (window, TaskView::none()),
        window.request_follower_repair() == (window, TaskView::none()),
{
}

/// A peer's apply is looked at once: a notice already seen, or an older one,
/// leads to nothing.
pub proof fn an_apply_notice_is_seen_once(window: WindowView, notice: PeerApplyNotice)
    ensures
        window.consume_peer_apply_notice(Some(notice)).0.consume_peer_apply_notice(Some(notice)).1
            == TaskView::none(),
        notice.generation <= window.peers.peer_apply_notice_generation
            ==> window.consume_peer_apply_notice(Some(notice)) == (window, TaskView::none()),
{
}

} // verus!
