//! What keeps the images and the applied wallpaper safe, whatever message
//! arrives.

use vstd::prelude::*;
use crate::accent_laws::{
    answers_stay_within, capture_stays_quiet, completions_stay_within, plans_stay_within,
    toggle_stays_quiet,
};
use crate::effect::{Call, Effect, LiveUse, PruneTail, TaskView};
use crate::laws::may_arrive;
use crate::message::Message;
use crate::reactions::{every_message_is_in_order, group_of};
use crate::settings::{normalized, normalizing_gives_supported_settings};
use crate::takeover::Boot;
use crate::window::WindowView;

verus! {

/// A thumbnail pass runs only in an active leader, and a pass that is owed
/// has one running before it that will settle it.
pub open spec fn work_in_order(window: WindowView) -> bool {
    &&& window.work.thumbnails_owed ==> window.work.thumbnail_pass_pending
    &&& window.work.thumbnail_pass_pending ==> window.is_active_leader()
}

/// A call that deletes files is told to spare the applied wallpaper and the
/// image a refresh wants to apply, and sweeps the thumbnail cache only while
/// nothing writes into it.
pub open spec fn deletes_with_care(
    before: WindowView,
    message: Message,
    after: WindowView,
    call: Call,
) -> bool {
    match call {
        Call::Merge { fetched, ineligible, protected, tail } => {
            &&& protected == after.protected()
            &&& tail.live is Unknown ==> ineligible is None
        },
        Call::Prune { retention_days, protected, sweep, tail } => {
            &&& protected == after.protected()
            &&& sweep ==> after.may_sweep_thumbnails()
            &&& retention_days == 0 || retention_days == after.settings.config.retention_days
            &&& message matches Message::LiveRead { purpose, live } ==> live is Unknown
                ==> retention_days == 0
            &&& message matches Message::Merged { images, tail } ==> tail.live is Unknown
                ==> retention_days == 0
        },
        Call::SweepThumbnails => {
            &&& message is ThumbnailsReady
            &&& !before.work.refresh_pending
        },
        _ => true,
    }
}

/// Work is started only where none of its kind runs, and is recorded as
/// running.
pub open spec fn starts_alone(
    before: WindowView,
    message: Message,
    after: WindowView,
    effect: Effect,
) -> bool {
    match effect {
        Effect::Refresh { downloads, backfill } => {
            &&& after.is_active_leader() && after.work.refresh_pending
            &&& !before.work.refresh_pending || !before.is_active_leader()
            &&& after.work.thumbnail_pass_pending ==> backfill.deferred
        },
        Effect::ThumbnailPass { backfill } => {
            &&& after.is_active_leader() && after.work.thumbnail_pass_pending
            &&& !before.work.thumbnail_pass_pending || message is ThumbnailsReady
                || !before.is_active_leader()
        },
        _ => true,
    }
}

/// What one message does to the gallery.
pub open spec fn keeps_the_gallery(
    before: WindowView,
    message: Message,
    after: WindowView,
    task: TaskView,
) -> bool {
    &&& work_in_order(before) ==> work_in_order(after)
    &&& forall|i: int|
        0 <= i < task.calls.len() ==> deletes_with_care(
            before,
            message,
            after,
            #[trigger] task.calls[i],
        )
    &&& forall|i: int|
        0 <= i < task.effects.len() ==> starts_alone(
            before,
            message,
            after,
            #[trigger] task.effects[i],
        )
    &&& forall|i: int|
        0 <= i < task.calls.len() && #[trigger] task.calls[i] == Call::ReadLive(
            LiveUse::StartRefresh,
        ) ==> !after.work.refresh_pending
}

#[verifier::rlimit(40)]
pub(crate) proof fn surface_messages_keep_the_gallery(
    window: WindowView,
    message: Message,
    now: u64,
)
    requires
        window.has_headroom(),
        may_arrive(window, message),
        group_of(message) is Surfaces,
    ensures
        keeps_the_gallery(
            window,
            message,
            window.update(message, now).0,
            window.update(message, now).1,
        ),
{
}

#[verifier::rlimit(40)]
pub(crate) proof fn peer_messages_keep_the_gallery(window: WindowView, message: Message, now: u64)
    requires
        window.has_headroom(),
        may_arrive(window, message),
        group_of(message) is Peers,
    ensures
        keeps_the_gallery(
            window,
            message,
            window.update(message, now).0,
            window.update(message, now).1,
        ),
{
}

#[verifier::rlimit(40)]
pub(crate) proof fn takeover_messages_keep_the_gallery(
    window: WindowView,
    message: Message,
    now: u64,
)
    requires
        window.has_headroom(),
        may_arrive(window, message),
        group_of(message) is Takeover,
    ensures
        keeps_the_gallery(
            window,
            message,
            window.update(message, now).0,
            window.update(message, now).1,
        ),
{
}

#[verifier::rlimit(40)]
pub(crate) proof fn refresh_messages_keep_the_gallery(
    window: WindowView,
    message: Message,
    now: u64,
)
    requires
        window.has_headroom(),
        may_arrive(window, message),
        group_of(message) is Refresh,
    ensures
        keeps_the_gallery(
            window,
            message,
            window.update(message, now).0,
            window.update(message, now).1,
        ),
{
}

#[verifier::rlimit(40)]
pub(crate) proof fn shuffle_messages_keep_the_gallery(
    window: WindowView,
    message: Message,
    now: u64,
)
    requires
        window.has_headroom(),
        may_arrive(window, message),
        group_of(message) is Shuffle,
    ensures
        keeps_the_gallery(
            window,
            message,
            window.update(message, now).0,
            window.update(message, now).1,
        ),
{
}

#[verifier::rlimit(40)]
pub(crate) proof fn merges_keep_the_gallery(window: WindowView, message: Message, now: u64)
    requires
        window.has_headroom(),
        may_arrive(window, message),
        group_of(message) is Merges,
    ensures
        keeps_the_gallery(
            window,
            message,
            window.update(message, now).0,
            window.update(message, now).1,
        ),
{
}

#[verifier::rlimit(40)]
pub(crate) proof fn applies_keep_the_gallery(window: WindowView, message: Message, now: u64)
    requires
        window.has_headroom(),
        may_arrive(window, message),
        group_of(message) is Applies,
    ensures
        keeps_the_gallery(
            window,
            message,
            window.update(message, now).0,
            window.update(message, now).1,
        ),
{
}

#[verifier::rlimit(40)]
pub(crate) proof fn setting_messages_keep_the_gallery(
    window: WindowView,
    message: Message,
    now: u64,
)
    requires
        window.has_headroom(),
        may_arrive(window, message),
        group_of(message) is Controls,
    ensures
        keeps_the_gallery(
            window,
            message,
            window.update(message, now).0,
            window.update(message, now).1,
        ),
{
}

#[verifier::rlimit(40)]
pub(crate) proof fn confirmations_keep_the_gallery(window: WindowView, message: Message, now: u64)
    requires
        window.has_headroom(),
        may_arrive(window, message),
        group_of(message) is Confirmations,
    ensures
        keeps_the_gallery(
            window,
            message,
            window.update(message, now).0,
            window.update(message, now).1,
        ),
{
    if let Message::ConfigConfirmed { generation, was_active_leader, config } = message {
        normalizing_gives_supported_settings(config, window.settings.choices);
        if window.is_active_leader() {
            let config = normalized(config, window.settings.choices);
            let w = window.with_config(window.leader_config(config));
            toggle_stays_quiet(w, config.accent_enabled, false);
            toggle_stays_quiet(w.sync_shuffle(true).0, config.accent_enabled, false);
        }
    }
}

#[verifier::rlimit(40)]
pub(crate) proof fn announcements_keep_the_gallery(window: WindowView, message: Message, now: u64)
    requires
        window.has_headroom(),
        may_arrive(window, message),
        group_of(message) is Announcements,
    ensures
        keeps_the_gallery(
            window,
            message,
            window.update(message, now).0,
            window.update(message, now).1,
        ),
{
    if let Message::ConfigUpdated(payload) = message {
        let seen = window.watcher_event().confirming();
        normalizing_gives_supported_settings(payload, window.settings.choices);
        let config = normalized(payload, window.settings.choices);
        let confirmed = Message::ConfigConfirmed {
            generation: seen.settings.config_confirmation_generation,
            was_active_leader: seen.is_active_leader(),
            config,
        };
        if !window.is_hydrating() && !window.settings.config_context {
            confirmations_keep_the_gallery(seen, confirmed, now);
            assert(window.update(message, now) == seen.update(confirmed, now));
        }
    }
}

#[verifier::rlimit(40)]
pub(crate) proof fn prunes_keep_the_gallery(window: WindowView, message: Message, now: u64)
    requires
        window.has_headroom(),
        may_arrive(window, message),
        group_of(message) is Prunes,
    ensures
        keeps_the_gallery(
            window,
            message,
            window.update(message, now).0,
            window.update(message, now).1,
        ),
{
    if let Message::Pruned { images, tail } = message {
        let pruned = window.with_images(images@);
        if let PruneTail::Housekeeping { shuffle_changed, accent_flip } = tail {
            let w1 = pruned.sync_shuffle(false).0;
            let w2 = if shuffle_changed {
                w1.sync_shuffle(true).0
            } else {
                w1
            };
            if let Some(enabled) = accent_flip {
                toggle_stays_quiet(w2, enabled, false);
            }
        }
    }
}

#[verifier::rlimit(40)]
pub(crate) proof fn toggles_keep_the_gallery(window: WindowView, message: Message, now: u64)
    requires
        window.has_headroom(),
        may_arrive(window, message),
        group_of(message) is Toggles,
    ensures
        keeps_the_gallery(
            window,
            message,
            window.update(message, now).0,
            window.update(message, now).1,
        ),
{
    if let Message::SetAccentEnabled(enabled) = message {
        if window.is_active_leader() {
            toggle_stays_quiet(window, enabled, false);
        }
    }
}

#[verifier::rlimit(40)]
pub(crate) proof fn accent_messages_keep_the_gallery(window: WindowView, message: Message, now: u64)
    requires
        window.has_headroom(),
        may_arrive(window, message),
        group_of(message) is AccentSteps,
    ensures
        keeps_the_gallery(
            window,
            message,
            window.update(message, now).0,
            window.update(message, now).1,
        ),
{
    if let Message::AccentPlanned { action, builders } = message {
        plans_stay_within(window, action, builders);
    }
    if let Message::AccentsRead { accents, after } = message {
        capture_stays_quiet(window, accents, after);
    }
}

#[verifier::rlimit(40)]
pub(crate) proof fn answers_keep_the_gallery(window: WindowView, message: Message, now: u64)
    requires
        window.has_headroom(),
        may_arrive(window, message),
        group_of(message) is AccentAnswers,
    ensures
        keeps_the_gallery(
            window,
            message,
            window.update(message, now).0,
            window.update(message, now).1,
        ),
{
    if let Message::AccentPersisted { step, landed } = message {
        answers_stay_within(window, step, landed);
    }
}

#[verifier::rlimit(40)]
pub(crate) proof fn completions_keep_the_gallery(window: WindowView, message: Message, now: u64)
    requires
        window.has_headroom(),
        may_arrive(window, message),
        group_of(message) is AccentCompletions,
    ensures
        keeps_the_gallery(
            window,
            message,
            window.update(message, now).0,
            window.update(message, now).1,
        ),
{
    if let Message::AccentWriteFinished { generation, success, disk_enabled } = message {
        if window.is_active_leader() {
            completions_stay_within(window, generation, success, disk_enabled);
        }
    }
}

/// Whatever arrives, a thumbnail pass that is owed has a running pass before
/// it that will settle it, and a pass runs only in an active leader.
pub proof fn owed_passes_are_never_lost(window: WindowView, message: Message, now: u64)
    requires
        window.has_headroom(),
        may_arrive(window, message),
        work_in_order(window),
    ensures
        work_in_order(window.update(message, now).0),
{
    every_message_is_in_order(window, message, now);
}

/// The applet starts with its work in order.
pub proof fn startup_is_in_order(boot: Boot)
    ensures
        work_in_order(WindowView::booted(boot).arm_initial_duties(boot.live).0),
{
}

/// Whatever arrives, every merge and every prune spares the applied wallpaper
/// and the image about to be applied, deletes nothing while the displayed
/// file is unknowable, and sweeps no thumbnail a running producer has written.
pub proof fn the_wallpaper_is_never_deleted(window: WindowView, message: Message, now: u64, at: int)
    requires
        window.has_headroom(),
        may_arrive(window, message),
        0 <= at < window.update(message, now).1.calls.len(),
    ensures
        deletes_with_care(
            window,
            message,
            window.update(message, now).0,
            window.update(message, now).1.calls[at],
        ),
{
    every_message_is_in_order(window, message, now);
}

/// Whatever arrives, a fetch starts only where none is running, a thumbnail
/// pass only where none is running or the running one has just ended, and a
/// fetch beside a pass leaves its thumbnails to a later one.
pub proof fn producers_never_overlap(window: WindowView, message: Message, now: u64, at: int)
    requires
        window.has_headroom(),
        may_arrive(window, message),
        0 <= at < window.update(message, now).1.effects.len(),
    ensures
        starts_alone(
            window,
            message,
            window.update(message, now).0,
            window.update(message, now).1.effects[at],
        ),
{
    every_message_is_in_order(window, message, now);
}

/// Whatever arrives, the display is read for a fetch only while no fetch is
/// running: its answer finds none.
pub proof fn a_fetch_is_prepared_alone(window: WindowView, message: Message, now: u64, at: int)
    requires
        window.has_headroom(),
        may_arrive(window, message),
        0 <= at < window.update(message, now).1.calls.len(),
        window.update(message, now).1.calls[at] == Call::ReadLive(LiveUse::StartRefresh),
    ensures
        !window.update(message, now).0.work.refresh_pending,
{
    every_message_is_in_order(window, message, now);
}

} // verus!
