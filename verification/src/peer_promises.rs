//! What the conversation between the processes, the takeover and the startup
//! are for, said of single operations in terms of what goes in and what comes
//! out.

use vstd::prelude::*;
use crate::catalogue::{CatalogueRestore, NonLeaderReload};
use crate::coordination::{
    merged, CoordinationConfig, PeerApplyNotice, PeerRefreshCompletion,
    PeerRefreshOutcome,
};
use crate::effect::{Call, Effect, TaskView};
use crate::fetch::RefreshErrorView;
use crate::schedule::RefreshDelay;
use crate::settings::{AppletConfig, ChoicesView};
use crate::takeover::{hydration_of, Boot};
use crate::terms::{
    days_hold, follows_display, leads, may_replace, roomy, started_if, tints,
};
use crate::wallpaper::CurrentWallpaper;
use crate::window::{
    GalleryView, LeaderReadiness, Leadership, LeadershipHydration, Peers, Role, SettingsView,
    WindowView, WorkView,
};
use std::path::PathBuf;

verus! {

/// The number after `generation`.
pub open spec fn following(generation: u64, next: u64) -> bool {
    next == (if generation == u64::MAX {
        0
    } else {
        generation + 1
    })
}

/// A mailbox that is merged holds, entry by entry, what was known or what
/// came in, and of the two the newer.
pub proof fn every_mailbox_entry_is_one_of_the_two(
    known: CoordinationConfig,
    incoming: CoordinationConfig,
)
    ensures
        ({
            let both = merged(known, incoming);
            &&& both.refresh_request == known.refresh_request || both.refresh_request
                == incoming.refresh_request
            &&& both.refresh_request >= known.refresh_request && both.refresh_request
                >= incoming.refresh_request
            &&& incoming.refresh_completion.request > known.refresh_completion.request
                ==> both.refresh_completion == incoming.refresh_completion
            &&& incoming.refresh_completion.request <= known.refresh_completion.request
                ==> both.refresh_completion == known.refresh_completion
            &&& both.apply_notice == (match (known.apply_notice, incoming.apply_notice) {
                (held, None) => held,
                (None, Some(notice)) => if notice.generation > 0 {
                    Some(notice)
                } else {
                    None
                },
                (Some(held), Some(notice)) => if notice.generation > held.generation {
                    Some(notice)
                } else {
                    Some(held)
                },
            })
        }),
{
}

/// Acknowledgements and notices go to the mailbox, word for word, wherever it
/// can be written.
pub proof fn answers_go_to_the_mailbox(
    window: WindowView,
    request: u64,
    outcome: PeerRefreshOutcome,
    path: PathBuf,
)
    ensures
        window.record_peer_refresh_completion(request, outcome).calls.len() == 0,
        window.record_peer_refresh_completion(request, outcome).effects == started_if(
            window.peers.coordination_context,
            Effect::RecordCompletion { completion: PeerRefreshCompletion { request, outcome } },
        ),
        window.write_peer_apply_notice(path).calls.len() == 0,
        window.write_peer_apply_notice(path).effects == started_if(
            window.peers.coordination_context,
            Effect::WriteApplyNotice { path },
        ),
{
}

/// The refresh button: a leader refreshes, a follower asks the leader, once,
/// through a mailbox that can be written.
pub proof fn the_button_refreshes_or_asks(window: WindowView)
    ensures
        ({
            let (after, task) = window.refresh_now();
            let asks = !leads(window) && !window.work.refresh_pending
                && !window.peers.peer_refresh_write_pending && window.peers.coordination_context;
            &&& task.calls == window.start_refresh().calls
            &&& leads(window) ==> after == window && task.effects.len() == 0
            &&& !leads(window) ==> task.calls.len() == 0
            &&& !leads(window) ==> task.effects == started_if(asks, Effect::RequestPeerRefresh)
            &&& !asks ==> after == window
            &&& asks ==> after == (WindowView {
                peers: Peers { peer_refresh_write_pending: true, ..window.peers },
                ..window
            })
            &&& window.gallery.images.len() > 0 && !window.work.refresh_pending
                && !window.peers.peer_refresh_write_pending ==> window.request_follower_repair()
                == (after, task)
            &&& window.gallery.images.len() == 0 || window.work.refresh_pending
                || window.peers.peer_refresh_write_pending ==> window.request_follower_repair()
                == (window, TaskView::none())
        }),
{
}

/// A process without the lock reads catalogue and display anew under a new
/// generation; one with the lock does not.
pub proof fn a_follower_reads_its_state_anew(window: WindowView, may_repair: bool)
    ensures
        ({
            let (after, task) = window.request_non_leader_reload(may_repair);
            let generation = after.peers.non_leader_reload_generation;
            &&& window.role.leadership.leader ==> (after, task) == (window, TaskView::none())
            &&& !window.role.leadership.leader ==> {
                &&& following(window.peers.non_leader_reload_generation, generation)
                &&& task.calls.len() == 0
                &&& task.effects == seq![Effect::Reload { generation }]
                &&& after == (WindowView {
                    peers: Peers {
                        non_leader_reload_generation: generation,
                        non_leader_reload_repairs: may_repair,
                        ..window.peers
                    },
                    ..window
                })
            }
        }),
{
}

/// A reload that is current is taken over, images and display; a rebuilt
/// catalogue asks the leader for a repair where the reload may. A stale, a
/// failed and a leader's reload change nothing.
pub proof fn a_reload_is_taken_over(
    window: WindowView,
    generation: u64,
    reload: NonLeaderReload,
    error: String,
)
    ensures
        ({
            let (after, task) = window.finish_non_leader_reload(generation, Ok(reload));
            let current = !window.role.leadership.leader && generation
                == window.peers.non_leader_reload_generation;
            let asks = window.peers.non_leader_reload_repairs && reload.provenance is Rebuilt
                && reload.catalogue.images@.len() > 0 && !window.work.refresh_pending
                && !window.peers.peer_refresh_write_pending && window.peers.coordination_context;
            &&& !current ==> (after, task) == (window, TaskView::none())
            &&& current ==> {
                &&& after.gallery.images == reload.catalogue.images@
                &&& follows_display(reload.live, window.gallery.current, after.gallery.current)
                &&& after.gallery == (GalleryView {
                    images: reload.catalogue.images@,
                    current: after.gallery.current,
                    ..window.gallery
                })
                &&& task.calls.len() == 0
                &&& task.effects == started_if(asks, Effect::RequestPeerRefresh)
                &&& after.peers.peer_refresh_write_pending == (
                window.peers.peer_refresh_write_pending || asks)
                &&& after.work == window.work && after.settings == window.settings
            }
            &&& window.finish_non_leader_reload(generation, Err(error)) == (
                window,
                TaskView::none(),
            )
        }),
{
}

/// The leader's answer settles the request it covers: what happened is shown,
/// nothing is pending any more, a timeout on its way is outdated, and the state
/// is read anew without asking again. An answer to an earlier request, or with
/// nothing waited for, changes nothing.
pub proof fn an_answer_settles_what_it_covers(
    window: WindowView,
    answer: PeerRefreshCompletion,
    now: u64,
)
    requires
        !window.role.leadership.leader,
    ensures
        ({
            let (after, task) = window.settle_peer_refresh(answer, now);
            let covered = window.peers.requested_peer_refresh is Some && answer.request
                >= window.peers.requested_peer_refresh->0;
            &&& !covered ==> (after, task) == (window, TaskView::none())
            &&& covered ==> {
                &&& after.peers.requested_peer_refresh is None
                &&& !after.work.refresh_pending
                &&& following(
                    window.peers.peer_refresh_timeout_generation,
                    after.peers.peer_refresh_timeout_generation,
                )
                &&& !after.peers.non_leader_reload_repairs
                &&& task.calls.len() == 0
                &&& task.effects == seq![
                    Effect::Reload { generation: after.peers.non_leader_reload_generation },
                ]
                &&& following(
                    window.peers.non_leader_reload_generation,
                    after.peers.non_leader_reload_generation,
                )
                &&& match answer.outcome {
                    PeerRefreshOutcome::Success => after.work.last_updated == Some(now)
                        && after.work.last_error is None,
                    PeerRefreshOutcome::Network => after.work.last_updated
                        == window.work.last_updated && after.work.last_error == Some(
                        RefreshErrorView::Network(Seq::empty()),
                    ),
                    PeerRefreshOutcome::Disk => after.work.last_updated
                        == window.work.last_updated && after.work.last_error == Some(
                        RefreshErrorView::Disk(Seq::empty()),
                    ),
                }
                &&& after.gallery == window.gallery && after.peers.coordination
                    == window.peers.coordination
            }
        }),
{
}

/// A request that was written is waited for under its own number, with a
/// timeout of its own; one whose answer is known already is settled at once.
/// One that could not be written, or was written by a process that leads by
/// now, leaves nothing to wait for.
pub proof fn a_written_request_is_waited_for(
    window: WindowView,
    request: u64,
    now: u64,
    error: String,
)
    ensures
        ({
            let (after, task) = window.finish_peer_refresh_request(Ok(request), now);
            let unwritten = WindowView {
                peers: Peers { peer_refresh_write_pending: false, ..window.peers },
                ..window
            };
            let known = window.peers.coordination.refresh_completion;
            let generation = after.peers.peer_refresh_timeout_generation;
            &&& window.finish_peer_refresh_request(Err(error), now) == (
                unwritten,
                TaskView::none(),
            )
            &&& leads(window) ==> (after, task) == (unwritten, TaskView::none())
            &&& !leads(window) ==> {
                &&& !after.peers.peer_refresh_write_pending
                &&& after.peers.coordination.refresh_request >= request
                &&& after.peers.coordination.refresh_request
                    >= window.peers.coordination.refresh_request
                &&& after.peers.coordination.refresh_request == request
                    || after.peers.coordination.refresh_request
                    == window.peers.coordination.refresh_request
                &&& after.peers.coordination.refresh_completion == known
                &&& known.request < request ==> {
                    &&& after.peers.requested_peer_refresh == Some(request)
                    &&& after.work.refresh_pending
                    &&& following(window.peers.peer_refresh_timeout_generation, generation)
                    &&& task.calls.len() == 0
                    &&& task.effects == seq![Effect::PeerRefreshTimer { generation, request }]
                }
                &&& known.request >= request && !window.role.leadership.leader ==> {
                    &&& after.peers.requested_peer_refresh is None
                    &&& !after.work.refresh_pending
                    &&& task.effects == seq![
                        Effect::Reload { generation: after.peers.non_leader_reload_generation },
                    ]
                }
            }
        }),
{
}

/// A timeout of the request that is waited for gives it up and reads the state
/// anew, and may ask for a repair again; any other timeout does nothing.
pub proof fn a_timeout_gives_its_request_up(window: WindowView, generation: u64, request: u64)
    requires
        !window.role.leadership.leader,
    ensures
        ({
            let (after, task) = window.timeout_peer_refresh(generation, request);
            let current = generation == window.peers.peer_refresh_timeout_generation
                && window.peers.requested_peer_refresh == Some(request);
            &&& !current ==> (after, task) == (window, TaskView::none())
            &&& current ==> {
                &&& after.peers.requested_peer_refresh is None
                &&& !after.work.refresh_pending
                &&& after.work.last_error == window.work.last_error
                &&& after.work.last_updated == window.work.last_updated
                &&& after.peers.non_leader_reload_repairs
                &&& task.calls.len() == 0
                &&& task.effects == seq![
                    Effect::Reload { generation: after.peers.non_leader_reload_generation },
                ]
            }
        }),
{
}

/// The leader reserves the newest request that no fetch has covered, and reads
/// the display for it unless a fetch or such a reading is under way.
pub proof fn an_open_request_is_reserved(window: WindowView)
    ensures
        ({
            let (after, task) = window.consume_peer_refresh_request();
            let request = window.peers.coordination.refresh_request;
            let open = leads(window) && request
                > window.peers.coordination.refresh_completion.request && request
                > window.peers.peer_refresh_covered;
            let reads = open && !window.work.refresh_pending
                && window.peers.peer_refresh_live_read is None;
            &&& !open ==> after == window
            &&& task.calls.len() == 0
            &&& task.effects == started_if(reads, Effect::ReadLiveForPeer { request })
            &&& open ==> {
                &&& after.peers.peer_refresh_request == Some(
                    match window.peers.peer_refresh_request {
                        Some(reserved) if reserved > request => reserved,
                        _ => request,
                    },
                )
                &&& after == (WindowView {
                    peers: Peers {
                        peer_refresh_request: after.peers.peer_refresh_request,
                        peer_refresh_live_read: if reads {
                            Some(request)
                        } else {
                            window.peers.peer_refresh_live_read
                        },
                        ..window.peers
                    },
                    ..window
                })
            }
        }),
{
}

/// The display read for a request starts the fetch, unless one runs, or what
/// was reserved has been covered meanwhile. A reading that is not the one
/// waited for does nothing.
pub proof fn a_reading_starts_the_fetch_asked_for(
    window: WindowView,
    request: u64,
    live: CurrentWallpaper,
)
    ensures
        ({
            let (after, task) = window.finish_peer_refresh_live_read(request, live);
            let current = window.peers.peer_refresh_live_read == Some(request);
            let read = WindowView {
                peers: Peers { peer_refresh_live_read: None, ..window.peers },
                ..window
            };
            let idle = leads(window) && !window.work.refresh_pending;
            let open = window.peers.peer_refresh_request is Some
                && window.peers.peer_refresh_request->0
                > window.peers.coordination.refresh_completion.request
                && window.peers.peer_refresh_request->0 > window.peers.peer_refresh_covered;
            &&& !current ==> (after, task) == (window, TaskView::none())
            &&& current && !idle ==> (after, task) == (read, TaskView::none())
            &&& current && idle && open ==> (after, task) == read.start_refresh_over(live)
            &&& current && idle && !open ==> task == TaskView::none() && after == (WindowView {
                peers: Peers { peer_refresh_request: None, ..read.peers },
                ..read
            })
        }),
{
}

/// The leader looks at a peer's apply it has not seen, and takes what the
/// display then shows for applied, as any apply of its own.
pub proof fn a_peers_apply_is_looked_at(
    window: WindowView,
    notice: PeerApplyNotice,
    live: CurrentWallpaper,
)
    ensures
        ({
            let (after, task) = window.consume_peer_apply_notice(Some(notice));
            let fresh = leads(window) && notice.generation
                > window.peers.peer_apply_notice_generation;
            &&& window.consume_peer_apply_notice(None) == (window, TaskView::none())
            &&& task.calls.len() == 0
            &&& task.effects == started_if(
                fresh,
                Effect::ValidateApply { generation: notice.generation },
            )
            &&& !fresh ==> after == window
            &&& fresh ==> after == (WindowView {
                peers: Peers { peer_apply_notice_generation: notice.generation, ..window.peers },
                ..window
            })
        }),
        ({
            let generation = window.peers.peer_apply_notice_generation;
            let (after, task) = window.finish_peer_apply_validation(generation, live);
            match live {
                CurrentWallpaper::File(file) if leads(window) => {
                    &&& after.gallery.current == Some(file.path)
                    &&& after.gallery.cold_start is Done
                    &&& task.calls.len() == 0
                    &&& task.effects == started_if(
                        tints(window),
                        Effect::ComputeAccent { source: file.path },
                    )
                },
                _ => (after, task) == (window, TaskView::none()),
            }
        }),
        forall|generation: u64|
            generation != window.peers.peer_apply_notice_generation ==> #[trigger]
                window.finish_peer_apply_validation(generation, live) == (
                window,
                TaskView::none(),
            ),
{
}

/// A mailbox that changed outdates a takeover's reading. Otherwise it is
/// merged, and then a leader reserves what is open and looks at a new apply,
/// and a follower holds the answer against what it waits for.
pub proof fn a_changed_mailbox_is_acted_on(
    window: WindowView,
    incoming: CoordinationConfig,
    now: u64,
)
    ensures
        ({
            let (after, task) = window.coordination_updated(incoming, now);
            let seen = WindowView {
                role: Role {
                    leadership_state_generation: after.role.leadership_state_generation,
                    ..window.role
                },
                ..window
            };
            let known = merged(window.peers.coordination, incoming);
            let informed = WindowView {
                peers: Peers { coordination: known, ..seen.peers },
                ..seen
            };
            let taking_over = window.role.leadership.leader && window.role.leader_readiness
                is Hydrating;
            &&& following(
                window.role.leadership_state_generation,
                after.role.leadership_state_generation,
            )
            &&& taking_over ==> (after, task) == (seen, TaskView::none())
            &&& leads(window) ==> {
                let (w1, refresh) = informed.consume_peer_refresh_request();
                let (w2, apply) = w1.consume_peer_apply_notice(known.apply_notice);
                after == w2 && task.calls.len() == 0 && task.effects == refresh.effects
                    + apply.effects
            }
            &&& !window.role.leadership.leader ==> (after, task) == informed.settle_peer_refresh(
                known.refresh_completion,
                now,
            )
        }),
{
}

/// What was really written to the mailbox is known from then on, where it is
/// newer than what was known; what was not written changes nothing.
pub proof fn what_was_written_is_known(
    window: WindowView,
    completion: PeerRefreshCompletion,
    notice: PeerApplyNotice,
    error: String,
)
    ensures
        ({
            let known = window.peers.coordination;
            let after = window.completion_written(completion, Ok(true));
            let noted = window.notice_written(Ok(notice));
            let held = match known.apply_notice {
                Some(held) => held.generation,
                None => 0,
            };
            &&& after.peers.coordination == (if completion.request
                > known.refresh_completion.request {
                CoordinationConfig { refresh_completion: completion, ..known }
            } else {
                known
            })
            &&& after == (WindowView {
                peers: Peers { coordination: after.peers.coordination, ..window.peers },
                ..window
            })
            &&& window.completion_written(completion, Ok(false)) == window
            &&& window.completion_written(completion, Err(error)) == window
            &&& noted.peers.coordination == (if notice.generation > held {
                CoordinationConfig { apply_notice: Some(notice), ..known }
            } else {
                known
            })
            &&& noted == (WindowView {
                peers: Peers { coordination: noted.peers.coordination, ..window.peers },
                ..window
            })
            &&& window.notice_written(Err(error)) == window
        }),
{
}

/// A survivor keeps trying for the lock, one timer at a time: a current tick
/// tries, a lock not taken arms the next tick, and a lock taken starts the
/// reading of the state without any other change.
pub proof fn a_survivor_tries_for_the_lock(window: WindowView)
    requires
        !window.role.leadership.leader,
    ensures
        ({
            let (waiting, retry) = window.leadership_tried(false);
            let (taking, read) = window.leadership_tried(true);
            let generation = window.role.leadership_generation;
            &&& window.on_leadership_tick(generation) == (
                window,
                TaskView { calls: seq![Call::TryAcquireLeadership], effects: Seq::empty() },
            )
            &&& following(generation, waiting.role.leadership_generation)
            &&& waiting == (WindowView {
                role: Role {
                    leadership_generation: waiting.role.leadership_generation,
                    ..window.role
                },
                ..window
            })
            &&& retry.calls.len() == 0
            &&& retry.effects == seq![
                Effect::LeadershipRetry { generation: waiting.role.leadership_generation },
            ]
            &&& following(generation, taking.role.leadership_generation)
            &&& following(
                window.role.leadership_hydration_generation,
                taking.role.leadership_hydration_generation,
            )
            &&& taking == (WindowView {
                role: Role {
                    leadership: Leadership { leader: true },
                    leader_readiness: LeaderReadiness::Hydrating,
                    leadership_generation: taking.role.leadership_generation,
                    leadership_hydration_generation:
                        taking.role.leadership_hydration_generation,
                    ..window.role
                },
                ..window
            })
            &&& read.calls.len() == 0
            &&& read.effects == seq![
                Effect::Hydrate {
                    generation: taking.role.leadership_hydration_generation,
                    state_generation: window.role.leadership_state_generation,
                    config_open: window.settings.config_context,
                    coordination_open: window.peers.coordination_context,
                },
            ]
        }),
{
}

/// A process that holds the lock tries for it no more; a tick that finds it
/// still reading starts the reading over, and an active leader, or an old
/// tick, does nothing.
pub proof fn a_holder_of_the_lock_tries_no_more(window: WindowView, generation: u64, taken: bool)
    ensures
        window.role.leadership.leader ==> window.leadership_tried(taken) == (
            window,
            TaskView::none(),
        ),
        leads(window) || generation != window.role.leadership_generation
            ==> window.on_leadership_tick(generation) == (window, TaskView::none()),
        window.role.leadership.leader && window.role.leader_readiness is Hydrating && generation
            == window.role.leadership_generation ==> {
            let (after, task) = window.on_leadership_tick(generation);
            &&& task.calls.len() == 0
            &&& task.effects == seq![
                Effect::Hydrate {
                    generation: after.role.leadership_hydration_generation,
                    state_generation: window.role.leadership_state_generation,
                    config_open: window.settings.config_context,
                    coordination_open: window.peers.coordination_context,
                },
            ]
            &&& following(generation, after.role.leadership_generation)
            &&& following(
                window.role.leadership_hydration_generation,
                after.role.leadership_hydration_generation,
            )
            &&& after.settings == window.settings && after.gallery == window.gallery
        },
{
}

/// A takeover reads a complete state or none: the first thing that cannot be
/// read is what is reported.
pub proof fn a_snapshot_is_complete_or_an_error(
    config: AppletConfig,
    choices: ChoicesView,
    coordination: CoordinationConfig,
    restore: CatalogueRestore,
    live: CurrentWallpaper,
    error: String,
    other: Result<CoordinationConfig, String>,
)
    ensures
        hydration_of(Err(error), choices, other, restore, live) == Err::<
            LeadershipHydration,
            String,
        >(error),
        hydration_of(Ok(config), choices, Err(error), restore, live) == Err::<
            LeadershipHydration,
            String,
        >(error),
        hydration_of(Ok(config), choices, Ok(coordination), restore, live) matches Ok(read) && {
            &&& read.config_context && read.coordination_context
            &&& read.coordination == coordination
            &&& read.catalogue == restore.catalogue && read.provenance == restore.provenance
            &&& read.live == live
            &&& read.config.shuffle_enabled == config.shuffle_enabled
            &&& read.config.shuffle_interval_secs == config.shuffle_interval_secs
            &&& read.config.accent_enabled == config.accent_enabled
            &&& read.config.accent_snapshot == config.accent_snapshot
            &&& read.config.accent_last_written == config.accent_last_written
            &&& choices.retentions.contains(config.retention_days) ==> read.config == config
        },
{
}

/// Whether the duties a leader arms over `live`, in a state that has `before`,
/// are the right ones: the refresh timer off the newest publication, the
/// shuffle exactly if it is on and has two images to rotate through, the
/// thumbnail pass, a refresh if a request is open or a rebuilt catalogue wants
/// its descriptions, and the accent of what is shown.
pub open spec fn duties_are_armed(
    before: WindowView,
    live: CurrentWallpaper,
    after: WindowView,
    task: TaskView,
) -> bool {
    let images = before.gallery.images;
    let rotates = before.settings.config.shuffle_enabled && images.len() >= 2;
    let open = before.peers.coordination.refresh_request
        > before.peers.coordination.refresh_completion.request;
    let repair = before.gallery.metadata_repair_due && images.len() > 0;
    let shuffle = started_if(
        rotates && !before.timers.shuffle_armed,
        Effect::ShuffleTimer {
            generation: (before.timers.shuffle_generation + 1) as u64,
            interval_secs: before.settings.config.shuffle_interval_secs,
        },
    );
    let pass = 1 + shuffle.len() as int;
    let rest = if open || repair {
        pass + 2
    } else {
        pass + 1
    };
    &&& task.calls.len() == 0
    &&& task.effects.len() >= rest
    &&& task.effects[0] == (Effect::RefreshTimer {
        generation: (before.timers.timer_generation + 1) as u64,
        delay: RefreshDelay::AfterPublication(
            if images.len() > 0 {
                Some(images[images.len() - 1].fullstartdate)
            } else {
                None
            },
        ),
    })
    &&& task.effects.subrange(1, pass) == shuffle
    &&& after.timers.shuffle_armed == rotates
    &&& task.effects[pass] matches Effect::ThumbnailPass { backfill } && !backfill.deferred
        && days_hold(live, before.settings.config.retention_days, backfill.retention_days)
    &&& after.work.thumbnail_pass_pending && !after.work.thumbnails_owed
    &&& open || repair ==> {
        &&& task.effects[pass + 1] matches Effect::Refresh { downloads, backfill }
            && backfill.deferred && downloads.fallback == may_replace(
            before.gallery.cold_start,
            live.file(),
        )
        &&& after.work.refresh_pending
        &&& after.peers.peer_refresh_request == (if open {
            Some(before.peers.coordination.refresh_request)
        } else {
            None
        })
    }
    &&& !(open || repair) ==> after.work.refresh_pending == before.work.refresh_pending
        && after.peers.peer_refresh_request == before.peers.peer_refresh_request
    &&& !after.gallery.metadata_repair_due
    &&& follows_display(live, before.gallery.current, after.gallery.current)
    &&& after.gallery.images == images && after.gallery.cold_start == before.gallery.cold_start
    &&& task.effects.subrange(rest, task.effects.len() as int) == (match after.gallery.current {
        Some(source) => started_if(tints(before), Effect::ComputeAccent { source }),
        None => Seq::empty(),
    })
}

/// A leader's duties, whenever they are armed, are all of them: after a start
/// or a takeover the shuffle timer in particular runs exactly if the shuffle
/// is on and two images are held, for the configured interval.
pub proof fn a_leaders_duties_are_all_armed(window: WindowView, live: CurrentWallpaper)
    requires
        leads(window),
        roomy(window),
    ensures
        duties_are_armed(
            window,
            live,
            window.arm_leader_duties(live).0,
            window.arm_leader_duties(live).1,
        ),
{
    let (after, task) = window.arm_leader_duties(live);
    let rotates = window.settings.config.shuffle_enabled && window.gallery.images.len() >= 2;
    let shuffle = started_if(
        rotates && !window.timers.shuffle_armed,
        Effect::ShuffleTimer {
            generation: (window.timers.shuffle_generation + 1) as u64,
            interval_secs: window.settings.config.shuffle_interval_secs,
        },
    );
    let pass = 1 + shuffle.len() as int;
    assert(task.effects.subrange(1, pass) =~= shuffle);
    let wanted = window.peers.coordination.refresh_request
        > window.peers.coordination.refresh_completion.request || (
    window.gallery.metadata_repair_due && window.gallery.images.len() > 0);
    let rest = if wanted {
        pass + 2
    } else {
        pass + 1
    };
    assert(task.effects.subrange(rest, task.effects.len() as int) =~= (
    match after.gallery.current {
        Some(source) => started_if(tints(window), Effect::ComputeAccent { source }),
        None => Seq::empty(),
    }));
}

/// A start of a leader takes over everything the shell found, with an empty
/// catalogue owing a first wallpaper, and arms all duties over it.
pub proof fn a_leader_starts_with_all_its_duties(boot: Boot)
    requires
        boot.leadership.leader,
    ensures
        ({
            let booted = WindowView::booted(boot);
            let (after, task) = booted.arm_initial_duties(boot.live);
            &&& leads(booted)
            &&& duties_are_armed(booted, boot.live, after, task)
        }),
{
    a_leaders_duties_are_all_armed(WindowView::booted(boot), boot.live);
}

/// What a start takes over.
pub proof fn a_start_takes_over_what_was_found(boot: Boot)
    ensures
        ({
            let booted = WindowView::booted(boot);
            let found = boot.restore.catalogue.images@;
            &&& booted.role.leadership == boot.leadership && booted.role.leader_readiness is Ready
            &&& booted.settings.config.shuffle_enabled == boot.config.shuffle_enabled
            &&& booted.settings.config.shuffle_interval_secs == boot.config.shuffle_interval_secs
            &&& booted.settings.config.accent_enabled == boot.config.accent_enabled
            &&& booted.settings.config.accent_snapshot == boot.config.accent_snapshot
            &&& booted.settings.config.accent_last_written == boot.config.accent_last_written
            &&& boot.choices.retentions@.contains(boot.config.retention_days)
                ==> booted.settings.config == boot.config
            &&& booted.settings.config_context == boot.config_context
            &&& booted.settings.choices == boot.choices@
            &&& booted.peers.coordination == boot.coordination
            &&& booted.peers.coordination_context == boot.coordination_context
            &&& booted.peers.peer_refresh_covered == boot.coordination.refresh_completion.request
            &&& booted.peers.peer_apply_notice_generation == (match boot.coordination.apply_notice {
                Some(notice) => notice.generation,
                None => 0,
            })
            &&& booted.gallery.images == found
            &&& found.len() == 0 ==> booted.gallery.cold_start is Pending
            &&& found.len() > 0 ==> booted.gallery.cold_start is Done
            &&& follows_display(boot.live, None, booted.gallery.current)
            &&& booted.gallery.protected_fallback is None
            &&& booted.gallery.metadata_repair_due == (boot.restore.provenance is Rebuilt)
            &&& booted.timers.poke_config == boot.poke_config
            &&& booted.accent.accent_handles == boot.accent_handles
            &&& !booted.timers.shuffle_armed && !booted.work.refresh_pending
            &&& booted.accent.accent_inflight is None && booted.popups.popup is None
        }),
{
}

/// A follower that starts waits for the lock, asks the leader to repair a
/// rebuilt catalogue that holds something, and does nothing else.
pub proof fn a_follower_starts_by_waiting(boot: Boot)
    requires
        !boot.leadership.leader,
    ensures
        ({
            let (after, task) = WindowView::booted(boot).arm_initial_duties(boot.live);
            &&& task.calls.len() == 0
            &&& task.effects == seq![Effect::LeadershipRetry { generation: 1 }] + started_if(
                boot.restore.provenance is Rebuilt && boot.restore.catalogue.images@.len() > 0
                    && boot.coordination_context,
                Effect::RequestPeerRefresh,
            )
            &&& after.role.leadership_generation == 1
            &&& !after.gallery.metadata_repair_due && !after.timers.shuffle_armed
        }),
{
}

/// A takeover snapshot that is current is adopted as a whole: settings,
/// mailbox, images and display, with nothing left of what the follower waited
/// for; a first wallpaper is owed only where nothing is held and knowably
/// nothing is shown. Then all duties are armed over it.
pub proof fn a_takeover_adopts_and_arms(window: WindowView, read: LeadershipHydration)
    requires
        window.role.leadership.leader,
        window.role.leader_readiness is Hydrating,
        roomy(window),
    ensures
        ({
            let adopted = window.hydrated(read);
            let (after, task) = window.finish_leadership_hydration(
                window.role.leadership_hydration_generation,
                window.role.leadership_state_generation,
                Ok(read),
            );
            let found = read.catalogue.images@;
            &&& leads(adopted)
            &&& adopted.settings == (SettingsView {
                config: read.config,
                config_context: window.settings.config_context || read.config_context,
                setting_write_queue: Seq::empty(),
                ..window.settings
            })
            &&& adopted.peers.coordination == read.coordination
            &&& adopted.peers.coordination_context == (window.peers.coordination_context
                || read.coordination_context)
            &&& adopted.peers.peer_refresh_covered == read.coordination.refresh_completion.request
            &&& adopted.peers.peer_apply_notice_generation == (
            match read.coordination.apply_notice {
                Some(notice) => notice.generation,
                None => 0,
            })
            &&& adopted.peers.peer_refresh_request is None
            &&& adopted.peers.peer_refresh_live_read is None
            &&& adopted.peers.requested_peer_refresh is None
            &&& !adopted.peers.peer_refresh_write_pending
            &&& following(
                window.peers.peer_refresh_timeout_generation,
                adopted.peers.peer_refresh_timeout_generation,
            )
            &&& following(
                window.peers.non_leader_reload_generation,
                adopted.peers.non_leader_reload_generation,
            )
            &&& adopted.gallery.images == found
            &&& follows_display(read.live, window.gallery.current, adopted.gallery.current)
            &&& adopted.gallery.metadata_repair_due == (read.provenance is Rebuilt)
            &&& found.len() == 0 && read.live is NoFile ==> adopted.gallery.cold_start is Pending
            &&& found.len() > 0 || !(read.live is NoFile) ==> adopted.gallery.cold_start is Done
            &&& adopted.work == (WorkView { refresh_pending: false, ..window.work })
            &&& adopted.timers == window.timers && adopted.accent == window.accent
            &&& adopted.popups == window.popups
            &&& duties_are_armed(adopted, read.live, after, task)
        }),
{
    a_leaders_duties_are_all_armed(window.hydrated(read), read.live);
}

/// Who leads, who is taking over, and how much room the counters need at most.
pub proof fn roles_are_told_by_lock_and_reading(window: WindowView)
    ensures
        window.is_active_leader() <==> window.role.leadership.leader
            && window.role.leader_readiness is Ready,
        window.is_hydrating() <==> window.role.leadership.leader && window.role.leader_readiness
            is Hydrating,
        roomy(window) ==> window.has_headroom(),
{
}

} // verus!
