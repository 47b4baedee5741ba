//! What the refresh, the thumbnail passes, the prunes, the applies and the
//! shuffle are for, said of single operations in terms of what goes in and
//! what comes out.

use vstd::prelude::*;
use crate::accent_laws::toggle_stays_quiet;
use crate::catalogue::{stored_at, stored_image_has_its_path, target_of, ImageEntry};
use crate::coordination::{PeerRefreshCompletion, PeerRefreshOutcome};
use crate::effect::{
    ApplyOutcome, ApplyReason, Call, Effect, LiveUse, MergeTail, PruneTail, RefreshTail, TaskView,
};
use crate::fetch::{RefreshBatch, RefreshError};
use crate::schedule::RefreshDelay;
use crate::terms::{
    called_if, days_hold, follows_display, leads, may_replace, roomy, started_if, tints,
};
use crate::timer_promises::the_first_wallpaper_is_decided_by_the_display;
use crate::wallpaper::{ColdStart, CurrentWallpaper, LiveFile};
use crate::window::{GalleryView, Peers, Timers, WindowView, WorkView};
use std::path::PathBuf;

verus! {

/// A leader with no fetch running reads the display for one; anything else
/// starts none.
pub proof fn a_wanted_refresh_reads_the_display(window: WindowView, generation: u64)
    ensures
        window.start_refresh().effects.len() == 0,
        window.start_refresh().calls == called_if(
            leads(window) && !window.work.refresh_pending,
            Call::ReadLive(LiveUse::StartRefresh),
        ),
        window.refresh_due(generation).effects.len() == 0,
        window.refresh_due(generation).calls == called_if(
            leads(window) && !window.work.refresh_pending && generation
                == window.timers.timer_generation,
            Call::ReadLive(LiveUse::StartRefresh),
        ),
{
}

/// The display read for a refresh starts the fetch: over as many days as are
/// kept, with a fallback exactly where an image may take the place of what is
/// shown, and with thumbnails left to a pass that runs. Nothing but the fetch
/// and the applied file is recorded.
pub proof fn a_fetch_starts_over_the_display(window: WindowView, live: CurrentWallpaper)
    requires
        leads(window),
    ensures
        ({
            let (after, task) = window.live_read(LiveUse::StartRefresh, live);
            let days = window.settings.config.retention_days;
            &&& task.calls.len() == 0 && task.effects.len() == 1
            &&& task.effects[0] matches Effect::Refresh { downloads, backfill }
            &&& downloads.horizon == (if 0 < days < 8 {
                days as int
            } else {
                8
            })
            &&& downloads.fallback == may_replace(window.gallery.cold_start, live.file())
            &&& backfill.budget == 256
            &&& days_hold(live, days, backfill.retention_days)
            &&& backfill.current == after.gallery.current
            &&& backfill.protected_fallback is None
            &&& backfill.deferred == window.work.thumbnail_pass_pending
            &&& follows_display(live, window.gallery.current, after.gallery.current)
            &&& after == (WindowView {
                gallery: GalleryView { current: after.gallery.current, ..window.gallery },
                work: WorkView { refresh_pending: true, ..window.work },
                ..window
            })
        }),
{
}

/// A pass that starts is recorded, covers what was owed, decodes by the same
/// rule as the prune deletes, and spares the image about to be applied.
pub proof fn a_pass_starts_over_the_display(window: WindowView, live: CurrentWallpaper)
    requires
        leads(window),
    ensures
        ({
            let (after, task) = window.start_thumbnail_pass_over(live);
            &&& task.calls.len() == 0 && task.effects.len() == 1
            &&& task.effects[0] matches Effect::ThumbnailPass { backfill }
            &&& backfill.budget == 256
            &&& days_hold(live, window.settings.config.retention_days, backfill.retention_days)
            &&& backfill.current == after.gallery.current
            &&& backfill.protected_fallback == window.gallery.protected_fallback
            &&& !backfill.deferred
            &&& follows_display(live, window.gallery.current, after.gallery.current)
            &&& after == (WindowView {
                gallery: GalleryView { current: after.gallery.current, ..window.gallery },
                work: WorkView {
                    thumbnail_pass_pending: true,
                    thumbnails_owed: false,
                    ..window.work
                },
                ..window
            })
        }),
{
}

/// The end of a pass sweeps the cache unless a fetch writes into it, starts
/// the pass a refresh left owed, and extracts the accent of what is applied.
pub proof fn the_end_of_a_pass_pays_what_is_owed(window: WindowView, live: CurrentWallpaper)
    requires
        leads(window),
    ensures
        ({
            let (after, task) = window.thumbnails_ready(live);
            let owed = window.work.thumbnails_owed;
            &&& task.calls == called_if(!window.work.refresh_pending, Call::SweepThumbnails)
            &&& after.work.thumbnail_pass_pending == owed
            &&& !after.work.thumbnails_owed
            &&& owed ==> task.effects.len() > 0 && task.effects[0] is ThumbnailPass
            &&& owed ==> follows_display(live, window.gallery.current, after.gallery.current)
            &&& !owed ==> after.gallery == window.gallery
            &&& after.gallery.images == window.gallery.images
            &&& task.effects.skip(
                if owed {
                    1int
                } else {
                    0int
                },
            ) == (match after.gallery.current {
                Some(source) => started_if(tints(window), Effect::ComputeAccent { source }),
                None => Seq::empty(),
            })
        }),
{
}

/// The end of a pass in a process that no longer leads only takes it off the
/// record.
pub proof fn a_followers_pass_just_ends(window: WindowView, live: CurrentWallpaper)
    requires
        !leads(window),
    ensures
        window.thumbnails_ready(live) == (
            WindowView {
                work: WorkView { thumbnail_pass_pending: false, ..window.work },
                ..window
            },
            TaskView::none(),
        ),
{
}

/// Whether `covered` is the highest request known to be covered once the one
/// reserved is.
pub open spec fn covers_request(before: u64, reserved: Option<u64>, covered: u64) -> bool {
    match reserved {
        Some(request) => covered == (if request > before {
            request
        } else {
            before
        }),
        None => covered == before,
    }
}

/// A failed fetch is over: the reserved request is covered and answered with
/// the kind of failure it was, the failure is shown, the next try is due in an
/// hour, and the gallery is as it was.
pub proof fn a_failed_fetch_says_so_and_is_tried_again(
    window: WindowView,
    error: RefreshError,
    live: CurrentWallpaper,
)
    requires
        leads(window),
        roomy(window),
    ensures
        ({
            let (after, task) = window.finish_refresh_over(Err(error), live);
            let generation = (window.timers.timer_generation + 1) as u64;
            let answered = window.peers.coordination_context
                && window.peers.peer_refresh_request is Some;
            &&& task.calls.len() == 0
            &&& task.effects == seq![
                Effect::RefreshTimer { generation, delay: RefreshDelay::Seconds(3_600) },
            ] + started_if(
                answered,
                Effect::RecordCompletion {
                    completion: PeerRefreshCompletion {
                        request: window.peers.peer_refresh_request->0,
                        outcome: match error {
                            RefreshError::Network(_) => PeerRefreshOutcome::Network,
                            RefreshError::Disk(_) => PeerRefreshOutcome::Disk,
                        },
                    },
                },
            )
            &&& covers_request(
                window.peers.peer_refresh_covered,
                window.peers.peer_refresh_request,
                after.peers.peer_refresh_covered,
            )
            &&& after == (WindowView {
                peers: Peers {
                    peer_refresh_request: None,
                    peer_refresh_covered: after.peers.peer_refresh_covered,
                    ..window.peers
                },
                work: WorkView {
                    refresh_pending: false,
                    last_error: Some(error@),
                    ..window.work
                },
                timers: Timers { timer_generation: generation, ..window.timers },
                ..window
            })
        }),
{
}

/// A fetch that succeeded is over: its entries are merged, the images marked
/// unusable go with them unless the display cannot be known, the applied file
/// and the image brought to be applied are spared, and everything the rest of
/// the refresh needs is handed along.
pub proof fn a_finished_fetch_is_merged(
    window: WindowView,
    batch: RefreshBatch,
    live: CurrentWallpaper,
)
    requires
        leads(window),
    ensures
        ({
            let (after, task) = window.finish_refresh_over(Ok(batch), live);
            &&& task.effects.len() == 0 && task.calls.len() == 1
            &&& task.calls[0] matches Call::Merge { fetched, ineligible, protected, tail }
            &&& fetched == batch.fetched
            &&& live is Unknown ==> ineligible is None
            &&& !(live is Unknown) && batch.ineligible@.len() > 0 ==> ineligible == Some(
                batch.ineligible,
            )
            &&& protected.current == after.gallery.current
            &&& protected.fallback == batch.fallback
            &&& tail.live == live
            &&& tail.thumbnails_deferred == batch.thumbnails_deferred
            &&& tail.refresh.peer_request == window.peers.peer_refresh_request
            &&& tail.refresh.delivered == (batch.fetched@.len() > 0)
            &&& tail.refresh.live == live.file()
            &&& tail.refresh.anchor == batch.anchor
            &&& follows_display(live, window.gallery.current, after.gallery.current)
            &&& covers_request(
                window.peers.peer_refresh_covered,
                window.peers.peer_refresh_request,
                after.peers.peer_refresh_covered,
            )
            &&& after == (WindowView {
                gallery: GalleryView {
                    current: after.gallery.current,
                    protected_fallback: batch.fallback,
                    ..window.gallery
                },
                peers: Peers {
                    peer_refresh_request: None,
                    peer_refresh_covered: after.peers.peer_refresh_covered,
                    ..window.peers
                },
                work: WorkView { refresh_pending: false, ..window.work },
                ..window
            })
        }),
{
}

/// A fetch that ends in a process that no longer leads is dropped.
pub proof fn a_followers_fetch_is_dropped(
    window: WindowView,
    result: Result<RefreshBatch, RefreshError>,
    live: CurrentWallpaper,
)
    requires
        !leads(window),
    ensures
        window.finish_refresh_over(result, live) == (
            WindowView { work: WorkView { refresh_pending: false, ..window.work }, ..window },
            TaskView::none(),
        ),
        window.live_read(LiveUse::StartRefresh, live) == (window, TaskView::none()),
        window.start_thumbnail_pass_over(live) == (window, TaskView::none()),
        window.start_refresh() == TaskView::none(),
        forall|changed: bool, flip: Option<bool>|
            #![trigger window.prune_immediately(changed, flip)]
            window.prune_immediately(changed, flip) == TaskView::none() && window.live_read(
                LiveUse::Prune { shuffle_changed: changed, accent_flip: flip },
                live,
            ) == (window, TaskView::none()),
{
}

/// The merged catalogue is taken over and pruned at once: by the configured
/// days over a known display, sparing what is applied and what is about to
/// be, and sweeping thumbnails only where nothing writes any. A pass that is
/// owed, now or from before, starts unless one runs.
pub proof fn a_merged_catalogue_is_pruned(
    window: WindowView,
    images: Seq<ImageEntry>,
    tail: MergeTail,
)
    requires
        leads(window),
    ensures
        ({
            let (after, task) = window.finish_merge(images, tail);
            let owed = window.work.thumbnails_owed || tail.thumbnails_deferred;
            let starts = owed && !window.work.thumbnail_pass_pending;
            &&& after.gallery.images == images
            &&& task.calls.len() == 1
            &&& task.calls[0] matches Call::Prune { retention_days, protected, sweep, tail: follows }
            &&& days_hold(tail.live, window.settings.config.retention_days, retention_days)
            &&& protected.current == after.gallery.current
            &&& protected.fallback == window.gallery.protected_fallback
            &&& sweep == (!window.work.refresh_pending && !window.work.thumbnail_pass_pending
                && !owed)
            &&& follows == PruneTail::Refresh(tail.refresh)
            &&& task.effects.len() == (if starts {
                1int
            } else {
                0int
            })
            &&& starts ==> task.effects[0] is ThumbnailPass && follows_display(
                tail.live,
                window.gallery.current,
                after.gallery.current,
            )
            &&& !starts ==> after.gallery.current == window.gallery.current
            &&& after.work.thumbnail_pass_pending == (window.work.thumbnail_pass_pending || owed)
            &&& after.work.thumbnails_owed == (owed && !starts)
            &&& after == (WindowView {
                gallery: GalleryView {
                    images,
                    current: after.gallery.current,
                    ..window.gallery
                },
                work: WorkView {
                    thumbnail_pass_pending: after.work.thumbnail_pass_pending,
                    thumbnails_owed: after.work.thumbnails_owed,
                    ..window.work
                },
                ..window
            })
        }),
{
}

/// A prune outside of a refresh reads the display first, and then goes by
/// what it shows.
pub proof fn a_prune_goes_by_the_display(
    window: WindowView,
    live: CurrentWallpaper,
    shuffle_changed: bool,
    accent_flip: Option<bool>,
)
    requires
        leads(window),
    ensures
        window.prune_immediately(shuffle_changed, accent_flip).effects.len() == 0,
        window.prune_immediately(shuffle_changed, accent_flip).calls == seq![
            Call::ReadLive(LiveUse::Prune { shuffle_changed, accent_flip }),
        ],
        ({
            let (after, task) = window.live_read(
                LiveUse::Prune { shuffle_changed, accent_flip },
                live,
            );
            &&& task.effects.len() == 0 && task.calls.len() == 1
            &&& task.calls[0] matches Call::Prune { retention_days, protected, sweep, tail }
            &&& days_hold(live, window.settings.config.retention_days, retention_days)
            &&& protected.current == after.gallery.current
            &&& protected.fallback == window.gallery.protected_fallback
            &&& sweep == (!window.work.refresh_pending && !window.work.thumbnail_pass_pending)
            &&& tail == (PruneTail::Housekeeping { shuffle_changed, accent_flip })
            &&& follows_display(live, window.gallery.current, after.gallery.current)
            &&& after == (WindowView {
                gallery: GalleryView { current: after.gallery.current, ..window.gallery },
                ..window
            })
        }),
{
}

/// The last step of a refresh schedules the next one off the response's own
/// publication time, keeps the shuffle in step with the images held, and
/// answers the request the refresh was for.
pub proof fn a_refresh_ends_by_scheduling_the_next(
    window: WindowView,
    tail: RefreshTail,
    accent: TaskView,
)
    requires
        leads(window),
        roomy(window),
    ensures
        ({
            let (after, task) = window.refresh_done(tail, accent);
            let rotates = window.settings.config.shuffle_enabled && window.gallery.images.len()
                >= 2;
            &&& task.calls == accent.calls
            &&& task.effects == seq![
                Effect::RefreshTimer {
                    generation: (window.timers.timer_generation + 1) as u64,
                    delay: RefreshDelay::AfterPublication(Some(tail.anchor)),
                },
            ] + started_if(
                rotates && !window.timers.shuffle_armed,
                Effect::ShuffleTimer {
                    generation: (window.timers.shuffle_generation + 1) as u64,
                    interval_secs: window.settings.config.shuffle_interval_secs,
                },
            ) + accent.effects + started_if(
                window.peers.coordination_context && tail.peer_request is Some,
                Effect::RecordCompletion {
                    completion: PeerRefreshCompletion {
                        request: tail.peer_request->0,
                        outcome: PeerRefreshOutcome::Success,
                    },
                },
            )
            &&& after.timers.shuffle_armed == rotates
            &&& after == (WindowView { timers: after.timers, ..window })
        }),
{
}

/// After the prune of a refresh the success is recorded. The image brought to
/// be applied is applied where it is still held, else the last of the
/// catalogue, and only if the display may be replaced: a first wallpaper
/// always, later ones only if the response brought something and what is
/// shown is ours. Otherwise the refresh ends, and with something held no first
/// wallpaper is owed any more.
pub proof fn a_pruned_refresh_applies_the_right_image(
    window: WindowView,
    images: Seq<ImageEntry>,
    tail: RefreshTail,
    now: u64,
)
    requires
        leads(window),
        roomy(window),
    ensures
        ({
            let (after, task) = window.finish_prune(images, PruneTail::Refresh(tail), now);
            let owed = may_replace(window.gallery.cold_start, None) && may_replace(
                window.gallery.cold_start,
                match tail.live {
                    Some(file) => Some(LiveFile { ours: false, ..file }),
                    None => None,
                },
            );
            let ours = tail.live is Some && tail.live->0.ours;
            let applies = images.len() > 0 && (owed || ours && tail.delivered);
            let held = window.gallery.protected_fallback is Some && exists|i: int|
                0 <= i < images.len() && window.gallery.protected_fallback == Some(
                    (#[trigger] images[i]).filename,
                );
            &&& after.gallery.images == images
            &&& after.work.last_updated == Some(now)
            &&& after.work.last_error is None
            &&& after.gallery.current == window.gallery.current
            &&& applies ==> {
                &&& task.effects.len() == 0
                &&& task.calls == seq![
                    Call::Apply {
                        path: if held {
                            window.gallery.protected_fallback->0
                        } else {
                            images[images.len() - 1].filename
                        },
                        why: ApplyReason::Refresh(tail),
                    },
                ]
                &&& after.gallery.cold_start == window.gallery.cold_start
            }
            &&& !applies ==> {
                &&& task.calls.len() == 0
                &&& task.effects.len() > 0
                &&& task.effects[0] == (Effect::RefreshTimer {
                    generation: (window.timers.timer_generation + 1) as u64,
                    delay: RefreshDelay::AfterPublication(Some(tail.anchor)),
                })
                &&& after.gallery.cold_start == (if images.len() > 0 {
                    ColdStart::Done
                } else {
                    window.gallery.cold_start
                })
            }
        }),
{
    let fallback = window.gallery.protected_fallback;
    if let Some(path) = fallback {
        stored_image_has_its_path(images, path);
        if let Some(entry) = stored_at(images, path) {
            let i = choose|i: int| 0 <= i < images.len() && images[i] == entry;
            assert(images[i].filename == path);
        }
    }
    the_first_wallpaper_is_decided_by_the_display(
        window.gallery.cold_start,
        tail.live,
    );
    let done = WindowView {
        work: WorkView { last_updated: Some(now), last_error: None, ..window.work },
        gallery: GalleryView { images, ..window.gallery },
        ..window
    };
    a_refresh_ends_by_scheduling_the_next(done, tail, TaskView::none());
    a_refresh_ends_by_scheduling_the_next(done.spend_cold_start(), tail, TaskView::none());
}

/// The rest of a settings change after its prune: the shuffle follows the
/// images that are left, its countdown starts over only if its own settings
/// changed, and a flip of the accent feature is a toggle like any other.
pub proof fn a_housekeeping_prune_catches_up(
    window: WindowView,
    images: Seq<ImageEntry>,
    shuffle_changed: bool,
    accent_flip: Option<bool>,
    now: u64,
)
    requires
        leads(window),
        roomy(window),
    ensures
        ({
            let tail = PruneTail::Housekeeping { shuffle_changed, accent_flip };
            let (after, task) = window.finish_prune(images, tail, now);
            let rotates = window.settings.config.shuffle_enabled && images.len() >= 2;
            &&& after.gallery == (GalleryView { images, ..window.gallery })
            &&& after.work == window.work
            &&& after.timers.shuffle_armed == rotates
            &&& rotates && (shuffle_changed || !window.timers.shuffle_armed) ==> {
                &&& task.effects.len() > 0
                &&& task.effects[0] matches Effect::ShuffleTimer { interval_secs, .. }
                    && interval_secs == window.settings.config.shuffle_interval_secs
                &&& after.timers.shuffle_generation > window.timers.shuffle_generation
            }
            &&& rotates && !shuffle_changed && window.timers.shuffle_armed
                ==> after.timers == window.timers
            &&& accent_flip is None && !rotates ==> task == TaskView::none()
            &&& accent_flip matches Some(enabled) ==> exists|before: WindowView, shuffle: TaskView|
                {
                    &&& (after, task) == (
                        (#[trigger] before.set_accent_enabled(enabled, false)).0,
                        (#[trigger] shuffle.and(before.set_accent_enabled(enabled, false).1)),
                    )
                    &&& before.settings == window.settings && before.accent == window.accent
                    &&& shuffle.calls.len() == 0
                }
        }),
{
    let w0 = WindowView { gallery: GalleryView { images, ..window.gallery }, ..window };
    let (w1, first) = w0.sync_shuffle(false);
    let (w2, second) = if shuffle_changed {
        w1.sync_shuffle(true)
    } else {
        (w1, TaskView::none())
    };
    if let Some(enabled) = accent_flip {
        toggle_stays_quiet(w2, enabled, false);
        let flip = w2.set_accent_enabled(enabled, false);
        assert(first.and(second).and(flip.1) == first.and(second).and(flip.1));
    }
}

/// Every wallpaper applied counts as applied from then on, ends the debt of a
/// first one, and has its accent extracted where the feature is on.
pub proof fn an_applied_wallpaper_is_remembered_and_tinted(window: WindowView, path: PathBuf)
    ensures
        ({
            let (after, task) = window.on_apply_success(path);
            &&& after == (WindowView {
                gallery: GalleryView {
                    current: Some(path),
                    cold_start: ColdStart::Done,
                    ..window.gallery
                },
                ..window
            })
            &&& task.calls.len() == 0
            &&& task.effects == started_if(tints(window), Effect::ComputeAccent { source: path })
        }),
{
}

/// The apply of a refresh: landed, it counts as applied, releases the fallback
/// and is tinted; refused, it keeps the first wallpaper owed over the display
/// it was refused over, if one still was. Either way the refresh ends as
/// usual.
pub proof fn a_refreshs_apply_ends_the_refresh(
    window: WindowView,
    path: PathBuf,
    tail: RefreshTail,
    file_gone: bool,
)
    requires
        leads(window),
        roomy(window),
    ensures
        ({
            let why = ApplyReason::Refresh(tail);
            let (landed, task) = window.applied(path, why, ApplyOutcome::Applied);
            let (refused, rest) = window.applied(path, why, ApplyOutcome::Failed { file_gone });
            let timer = Effect::RefreshTimer {
                generation: (window.timers.timer_generation + 1) as u64,
                delay: RefreshDelay::AfterPublication(Some(tail.anchor)),
            };
            let tint = Effect::ComputeAccent { source: path };
            &&& landed.gallery == (GalleryView {
                current: Some(path),
                cold_start: ColdStart::Done,
                protected_fallback: None,
                ..window.gallery
            })
            &&& task.calls.len() == 0 && rest.calls.len() == 0
            &&& task.effects.contains(timer) && rest.effects.contains(timer)
            &&& task.effects.contains(tint) <==> tints(window)
            &&& refused.gallery == (GalleryView {
                cold_start: match window.gallery.cold_start {
                    ColdStart::Done => ColdStart::Done,
                    _ => ColdStart::RetryOver(
                        match tail.live {
                            Some(file) => Some(file.path),
                            None => None,
                        },
                    ),
                },
                ..window.gallery
            })
            &&& window.peers.coordination_context && tail.peer_request is Some ==> {
                let answer = Effect::RecordCompletion {
                    completion: PeerRefreshCompletion {
                        request: tail.peer_request->0,
                        outcome: PeerRefreshOutcome::Success,
                    },
                };
                task.effects.contains(answer) && rest.effects.contains(answer)
            }
        }),
{
    let freed = WindowView {
        gallery: GalleryView { protected_fallback: None, ..window.gallery },
        ..window
    };
    let (w, accent) = freed.on_apply_success(path);
    a_refresh_ends_by_scheduling_the_next(w, tail, accent);
    let task = w.refresh_done(tail, accent).1;
    let retry = WindowView {
        gallery: GalleryView {
            cold_start: match window.gallery.cold_start {
                ColdStart::Done => ColdStart::Done,
                _ => ColdStart::RetryOver(
                    match tail.live {
                        Some(file) => Some(file.path),
                        None => None,
                    },
                ),
            },
            ..window.gallery
        },
        ..window
    };
    a_refresh_ends_by_scheduling_the_next(retry, tail, TaskView::none());
    let rest = retry.refresh_done(tail, TaskView::none()).1;
    assert(task.effects.contains(task.effects[0]));
    assert(rest.effects.contains(rest.effects[0]));
    assert(task.effects.contains(task.effects.last()));
    assert(rest.effects.contains(rest.effects.last()));
    if tints(window) {
        let rotates = window.settings.config.shuffle_enabled && window.gallery.images.len() >= 2;
        let at = if rotates && !window.timers.shuffle_armed {
            2int
        } else {
            1int
        };
        assert(task.effects[at] == (Effect::ComputeAccent { source: path }));
        assert(task.effects.contains(task.effects[at]));
    }
}

/// A current tick of the shuffle is spent, and asks for an image other than
/// the applied one: with a wallpaper known to be applied, the pick leaves that
/// very one out. A tick that finds the shuffle switched off asks for nothing.
pub proof fn a_shuffle_tick_leaves_the_shown_image_out(window: WindowView, generation: u64)
    requires
        leads(window),
        generation == window.timers.shuffle_generation,
    ensures
        ({
            let (after, task) = window.shuffle_due(generation);
            &&& task.effects.len() == 0
            &&& !window.settings.config.shuffle_enabled ==> task.calls.len() == 0
            &&& window.settings.config.shuffle_enabled ==> {
                &&& task.calls.len() == 1
                &&& task.calls[0] matches Call::PickOther { current: left_out }
                &&& window.gallery.current matches Some(shown) ==> left_out == Some(shown)
                &&& window.gallery.current is None ==> left_out is None
            }
            &&& after == (WindowView {
                timers: Timers { shuffle_armed: false, ..window.timers },
                ..window
            })
        }),
{
}

/// What the shuffle picked is applied; where there is nothing else to pick,
/// the next tick is armed.
pub proof fn a_shuffles_pick_is_applied(window: WindowView, path: PathBuf)
    requires
        leads(window),
        roomy(window),
        !window.timers.shuffle_armed,
    ensures
        window.shuffle_picked(Some(path)) == (
            window,
            TaskView {
                calls: seq![Call::Apply { path, why: ApplyReason::Shuffle }],
                effects: Seq::empty(),
            },
        ),
        window.shuffle_picked(None).1.calls.len() == 0,
        window.shuffle_picked(None).1.effects == started_if(
            window.settings.config.shuffle_enabled && window.gallery.images.len() >= 2,
            Effect::ShuffleTimer {
                generation: (window.timers.shuffle_generation + 1) as u64,
                interval_secs: window.settings.config.shuffle_interval_secs,
            },
        ),
{
}

/// An apply of the shuffle or of the user's that landed counts as applied, is
/// tinted, and starts the shuffle's countdown: the shuffle's own after its
/// spent tick, the user's in any case. One that was refused for a file that is
/// gone prunes; any other refusal of the shuffle's waits for the next tick.
pub proof fn a_leaders_apply_restarts_the_countdown(
    window: WindowView,
    path: PathBuf,
    file_gone: bool,
)
    requires
        leads(window),
        roomy(window),
    ensures
        ({
            let rotates = window.settings.config.shuffle_enabled && window.gallery.images.len()
                >= 2;
            let tick = Effect::ShuffleTimer {
                generation: (window.timers.shuffle_generation + 1) as u64,
                interval_secs: window.settings.config.shuffle_interval_secs,
            };
            let tint = started_if(tints(window), Effect::ComputeAccent { source: path });
            let prune = Call::ReadLive(
                LiveUse::Prune { shuffle_changed: false, accent_flip: None },
            );
            let refused = ApplyOutcome::Failed { file_gone };
            let (shuffled, t1) = window.applied(path, ApplyReason::Shuffle, ApplyOutcome::Applied);
            let (chosen, t2) = window.applied(path, ApplyReason::Manual, ApplyOutcome::Applied);
            let (w3, t3) = window.applied(path, ApplyReason::Shuffle, refused);
            let (w4, t4) = window.applied(path, ApplyReason::Manual, refused);
            &&& shuffled.gallery.current == Some(path) && chosen.gallery.current == Some(path)
            &&& shuffled.gallery.cold_start is Done && chosen.gallery.cold_start is Done
            &&& shuffled.gallery.images == window.gallery.images
            &&& chosen.gallery.images == window.gallery.images
            &&& shuffled.gallery.protected_fallback == window.gallery.protected_fallback
            &&& chosen.gallery.protected_fallback == window.gallery.protected_fallback
            &&& shuffled.timers.shuffle_armed == rotates && chosen.timers.shuffle_armed == rotates
            &&& t1.calls.len() == 0 && t2.calls.len() == 0
            &&& t1.effects == tint + started_if(rotates && !window.timers.shuffle_armed, tick)
            &&& t2.effects == tint + started_if(rotates, tick)
            &&& t3.calls == called_if(file_gone, prune)
            &&& t3.effects == started_if(
                !file_gone && rotates && !window.timers.shuffle_armed,
                tick,
            )
            &&& w3.gallery == window.gallery
            &&& t4.calls == called_if(file_gone, prune) && t4.effects.len() == 0
            &&& w4 == window
        }),
{
}

/// An apply of the user's in a follower counts as applied there, outdates the
/// reload in flight and is told to the leader; it arms nothing, and a refused
/// one does nothing at all.
pub proof fn a_followers_apply_is_told_to_the_leader(
    window: WindowView,
    path: PathBuf,
    file_gone: bool,
)
    requires
        !leads(window),
    ensures
        ({
            let (after, task) = window.applied(path, ApplyReason::Manual, ApplyOutcome::Applied);
            &&& after.gallery == (GalleryView { current: Some(path), ..window.gallery })
            &&& after.peers.non_leader_reload_generation
                != window.peers.non_leader_reload_generation
            &&& after.timers == window.timers && after.accent == window.accent
            &&& after.work == window.work && after.settings == window.settings
            &&& task.calls.len() == 0
            &&& task.effects == started_if(
                window.peers.coordination_context,
                Effect::WriteApplyNotice { path },
            )
            &&& window.applied(path, ApplyReason::Manual, ApplyOutcome::Failed { file_gone }) == (
                window,
                TaskView::none(),
            )
        }),
{
}

} // verus!
