//! What holds of the applet as a whole, whatever message arrives.

use vstd::prelude::*;
use crate::accent::{job_of, AccentAction, AccentInflight};
use crate::accent_laws::{
    answers_stay_within, capture_stays_quiet, completions_stay_within, plans_stay_within,
    steps_wait_on_the_ground, toggle_stays_quiet,
};
use crate::catalogue::NonLeaderReload;
use crate::coordination::CoordinationConfig;
use crate::effect::{Call, Effect, PruneTail, TaskView, TOOLTIP_ID};
use crate::identity::is_web_link;
use crate::message::Message;
use crate::paths::absolute_path;
use crate::reactions::{every_message_is_in_order, group_of};
use crate::schedule::RefreshDelay;
use crate::settings::{normalized, normalizing_gives_supported_settings, AppletConfig};
use crate::takeover::{hydration_of, Boot};
use crate::window::WindowView;
use std::path::PathBuf;

verus! {

/// Whether a message answers a call that only the active leader makes.
pub open spec fn answers_the_leader(message: Message) -> bool {
    match message {
        Message::LiveRead { .. } => true,
        Message::Merged { .. } => true,
        Message::Pruned { .. } => true,
        Message::Applied { why, .. } => !(why is Manual),
        Message::ShufflePicked(_) => true,
        Message::AccentPlanned { .. } => true,
        Message::AccentsRead { .. } => true,
        Message::AccentPersisted { .. } => true,
        Message::AccentBaseline(_) => true,
        _ => false,
    }
}

/// A message may arrive: the answer to a call is handed over before anything
/// else is, so it finds the process in the role that made the call, the
/// display read for a fetch with no other fetch running, and a lifecycle step
/// with no theme task in flight.
pub open spec fn may_arrive(window: WindowView, message: Message) -> bool {
    &&& answers_the_leader(message) ==> window.is_active_leader()
    &&& message is AccentPlanned || message is AccentsRead || message is AccentPersisted
        ==> window.accent.accent_inflight is None
    &&& message matches Message::LiveRead { purpose, .. } ==> purpose is StartRefresh
        ==> !window.work.refresh_pending
}

/// Background work a follower may start.
pub open spec fn follower_effect(effect: Effect) -> bool {
    match effect {
        Effect::LeadershipRetry { .. } => true,
        Effect::Hydrate { .. } => true,
        Effect::OpenPopup => true,
        Effect::Surface(_) => true,
        Effect::ConfirmConfig { .. } => true,
        Effect::WriteSetting { .. } => true,
        Effect::RequestPeerRefresh => true,
        Effect::PeerRefreshTimer { .. } => true,
        Effect::Reload { .. } => true,
        Effect::WriteApplyNotice { .. } => true,
        _ => false,
    }
}

/// Calls a follower may make.
pub open spec fn follower_call(call: Call) -> bool {
    match call {
        Call::TryAcquireLeadership => true,
        Call::Apply { why, .. } => why is Manual,
        Call::OpenUrl(_) => true,
        Call::OpenFile(_) => true,
        _ => false,
    }
}

/// Whether a task holds nothing but work a follower may do.
pub open spec fn follower_task(task: TaskView) -> bool {
    &&& forall|i: int| 0 <= i < task.effects.len() ==> follower_effect(#[trigger] task.effects[i])
    &&& forall|i: int| 0 <= i < task.calls.len() ==> follower_call(#[trigger] task.calls[i])
}

/// A process that is and stays no active leader does a follower's work only.
pub open spec fn follower_stays_inert(
    before: WindowView,
    message: Message,
    after: WindowView,
    task: TaskView,
) -> bool {
    !before.is_active_leader() && !after.is_active_leader() ==> {
        &&& follower_task(task)
        &&& after.timers == before.timers
        &&& after.accent == before.accent
        &&& after.gallery.cold_start == before.gallery.cold_start
        &&& after.gallery.protected_fallback == before.gallery.protected_fallback
        &&& !(message is NonLeaderReloaded) ==> after.gallery.images == before.gallery.images
    }
}

/// How a process becomes and stays the active leader.
pub open spec fn leaders_are_made_by_snapshots(
    before: WindowView,
    message: Message,
    after: WindowView,
) -> bool {
    &&& before.is_active_leader() ==> after.is_active_leader()
    &&& !before.is_active_leader() && after.is_active_leader() ==> {
        &&& before.is_hydrating()
        &&& message matches Message::LeadershipHydrated { generation, state_generation, result }
        &&& generation == before.role.leadership_hydration_generation
        &&& state_generation == before.role.leadership_state_generation
        &&& result is Ok
    }
}

/// The counters behind the timers and the accent tasks only ever grow.
pub open spec fn generations_grow(before: WindowView, after: WindowView) -> bool {
    before.has_headroom() ==> {
        &&& before.timers.timer_generation <= after.timers.timer_generation
            <= before.timers.timer_generation + 1
        &&& before.timers.shuffle_generation <= after.timers.shuffle_generation
            <= before.timers.shuffle_generation + 2
        &&& before.timers.lock_poke_generation <= after.timers.lock_poke_generation
            <= before.timers.lock_poke_generation + 1
        &&& before.accent.accent_write_generation <= after.accent.accent_write_generation
            <= before.accent.accent_write_generation + 1
    }
}

/// The count of open menus goes down only when a surface other than the
/// tooltip closed, or when our own popup was taken.
pub open spec fn only_closes_lower_the_menu_count(
    before: WindowView,
    message: Message,
    after: WindowView,
) -> bool {
    after.popups.dropdowns_open < before.popups.dropdowns_open ==> {
        ||| message matches Message::PopupClosed(id) && id != TOOLTIP_ID
        ||| message is TogglePopup && before.popups.popup is Some
    }
}

/// The catalogue changes only by a merge, a prune, a reload or a takeover.
pub open spec fn catalogue_changes_by_its_keepers(
    before: WindowView,
    message: Message,
    after: WindowView,
) -> bool {
    after.gallery.images != before.gallery.images ==> message is Merged || message is Pruned
        || message is NonLeaderReloaded || message is LeadershipHydrated
}

/// A leader switches the accent feature on only once its flag is on disk.
pub open spec fn only_landed_flags_switch_on(
    before: WindowView,
    message: Message,
    after: WindowView,
) -> bool {
    before.is_active_leader() && !before.settings.config.accent_enabled
        && after.settings.config.accent_enabled ==> {
        &&& message matches Message::AccentPersisted { step, landed }
        &&& step is ArmFlag
        &&& landed
    }
}

/// A leader's record of the user's own accents changes only by the answer to
/// its own persist, by a plan that says that it is not needed, or by a
/// restore that landed.
pub open spec fn snapshots_are_kept(
    before: WindowView,
    message: Message,
    after: WindowView,
) -> bool {
    before.is_active_leader() && after.settings.config.accent_snapshot
        != before.settings.config.accent_snapshot ==> {
        ||| message matches Message::AccentPersisted { step, landed } && (step is WriteSnapshot
            || step is EnableSnapshot)
        ||| message matches Message::AccentPlanned { action, builders } && action
            == (AccentAction::Disarm { keep_snapshot: false })
        ||| message matches Message::AccentWriteFinished { generation, success, disk_enabled }
            && success && before.accent.accent_inflight matches Some(
            AccentInflight::DisableRestore { .. },
        )
    }
}

/// Every theme task started is the one the guard is held for.
pub open spec fn theme_tasks_are_recorded(after: WindowView, task: TaskView) -> bool {
    forall|i: int|
        0 <= i < task.effects.len() ==> match #[trigger] task.effects[i] {
            Effect::AccentTask { generation, job } => {
                &&& generation == after.accent.accent_write_generation
                &&& after.accent.accent_inflight matches Some(inflight) && job == job_of(inflight)
            },
            _ => true,
        }
}

/// One theme task at a time: while one is in flight, nothing but its own
/// completion ends it, and none is started.
pub open spec fn one_theme_task_at_a_time(
    before: WindowView,
    message: Message,
    after: WindowView,
    task: TaskView,
) -> bool {
    &&& theme_tasks_are_recorded(after, task)
    &&& steps_wait_on_the_ground(after, task)
    &&& before.accent.accent_inflight is Some && !(message matches Message::AccentWriteFinished {
        generation,
        ..
    } && generation == before.accent.accent_write_generation) ==> {
        &&& after.accent.accent_inflight == before.accent.accent_inflight
        &&& after.accent.accent_write_generation == before.accent.accent_write_generation
    }
}

/// Whether the settings in force, and those that wait to be written, are ones
/// the dropdowns offer.
pub open spec fn settings_are_supported(window: WindowView) -> bool {
    &&& window.settings.choices.support(window.settings.config)
    &&& forall|i: int|
        0 <= i < window.settings.setting_write_queue.len()
            ==> window.settings.choices.support_setting(
            (#[trigger] window.settings.setting_write_queue[i]).1,
        )
}

/// Whether what a message reports of an earlier write or of a takeover's
/// reading is supported: both hold what was handed out supported.
pub open spec fn reports_supported_settings(window: WindowView, message: Message) -> bool {
    match message {
        Message::AppletSettingWritten { generation, setting, result } =>
            window.settings.choices.support_setting(setting),
        Message::LeadershipHydrated { generation, state_generation, result } => match result {
            Ok(hydration) => window.settings.choices.support(hydration.config),
            Err(_) => true,
        },
        _ => true,
    }
}

/// The choices stay, and supported settings stay supported, in force, in the
/// queue and in every write that goes out.
pub open spec fn settings_stay_supported(
    before: WindowView,
    message: Message,
    after: WindowView,
    task: TaskView,
) -> bool {
    &&& after.settings.choices == before.settings.choices
    &&& settings_are_supported(before) && reports_supported_settings(before, message) ==> {
        &&& settings_are_supported(after)
        &&& forall|i: int|
            0 <= i < task.effects.len() ==> match #[trigger] task.effects[i] {
                Effect::WriteSetting { generation, setting } =>
                    before.settings.choices.support_setting(setting),
                _ => true,
            }
    }
}

/// What is handed to the launcher is an ordinary web address or an absolute
/// path, never a flag or a local file in the guise of a link.
pub open spec fn opens_with_care(task: TaskView) -> bool {
    forall|i: int|
        0 <= i < task.calls.len() ==> match #[trigger] task.calls[i] {
            Call::OpenUrl(url) => is_web_link(url@),
            Call::OpenFile(path) => absolute_path(path),
            _ => true,
        }
}

/// What one message does to the role, the timers, the settings and the
/// accents.
pub open spec fn lawful(
    before: WindowView,
    message: Message,
    after: WindowView,
    task: TaskView,
) -> bool {
    &&& follower_stays_inert(before, message, after, task)
    &&& leaders_are_made_by_snapshots(before, message, after)
    &&& generations_grow(before, after)
    &&& only_closes_lower_the_menu_count(before, message, after)
    &&& catalogue_changes_by_its_keepers(before, message, after)
    &&& only_landed_flags_switch_on(before, message, after)
    &&& snapshots_are_kept(before, message, after)
    &&& one_theme_task_at_a_time(before, message, after, task)
    &&& settings_stay_supported(before, message, after, task)
    &&& opens_with_care(task)
}

#[verifier::rlimit(40)]
pub(crate) proof fn surface_messages_are_lawful(window: WindowView, message: Message, now: u64)
    requires
        window.has_headroom(),
        may_arrive(window, message),
        group_of(message) is Surfaces,
    ensures
        lawful(window, message, window.update(message, now).0, window.update(message, now).1),
{
}

#[verifier::rlimit(40)]
pub(crate) proof fn peer_messages_are_lawful(window: WindowView, message: Message, now: u64)
    requires
        window.has_headroom(),
        may_arrive(window, message),
        group_of(message) is Peers,
    ensures
        lawful(window, message, window.update(message, now).0, window.update(message, now).1),
{
}

#[verifier::rlimit(40)]
pub(crate) proof fn takeover_messages_are_lawful(window: WindowView, message: Message, now: u64)
    requires
        window.has_headroom(),
        may_arrive(window, message),
        group_of(message) is Takeover,
    ensures
        lawful(window, message, window.update(message, now).0, window.update(message, now).1),
{
}

#[verifier::rlimit(40)]
pub(crate) proof fn refresh_messages_are_lawful(window: WindowView, message: Message, now: u64)
    requires
        window.has_headroom(),
        may_arrive(window, message),
        group_of(message) is Refresh,
    ensures
        lawful(window, message, window.update(message, now).0, window.update(message, now).1),
{
}

#[verifier::rlimit(40)]
pub(crate) proof fn shuffle_messages_are_lawful(window: WindowView, message: Message, now: u64)
    requires
        window.has_headroom(),
        may_arrive(window, message),
        group_of(message) is Shuffle,
    ensures
        lawful(window, message, window.update(message, now).0, window.update(message, now).1),
{
}

#[verifier::rlimit(40)]
pub(crate) proof fn merges_are_lawful(window: WindowView, message: Message, now: u64)
    requires
        window.has_headroom(),
        may_arrive(window, message),
        group_of(message) is Merges,
    ensures
        lawful(window, message, window.update(message, now).0, window.update(message, now).1),
{
}

#[verifier::rlimit(40)]
pub(crate) proof fn applies_are_lawful(window: WindowView, message: Message, now: u64)
    requires
        window.has_headroom(),
        may_arrive(window, message),
        group_of(message) is Applies,
    ensures
        lawful(window, message, window.update(message, now).0, window.update(message, now).1),
{
}

#[verifier::rlimit(40)]
pub(crate) proof fn setting_messages_are_lawful(window: WindowView, message: Message, now: u64)
    requires
        window.has_headroom(),
        may_arrive(window, message),
        group_of(message) is Controls,
    ensures
        lawful(window, message, window.update(message, now).0, window.update(message, now).1),
{
}

#[verifier::rlimit(40)]
pub(crate) proof fn confirmations_are_lawful(window: WindowView, message: Message, now: u64)
    requires
        window.has_headroom(),
        may_arrive(window, message),
        group_of(message) is Confirmations,
    ensures
        lawful(window, message, window.update(message, now).0, window.update(message, now).1),
{
    if let Message::ConfigConfirmed { generation, was_active_leader, config } = message {
        normalizing_gives_supported_settings(config, window.settings.choices);
        if window.is_active_leader() {
            let config = normalized(config, window.settings.choices);
            let w = window.with_config(window.leader_config(config));
            toggle_stays_quiet(w, config.accent_enabled, false);
            toggle_stays_quiet(w.sync_shuffle(true).0, config.accent_enabled, false);
        }
    }
}

#[verifier::rlimit(40)]
pub(crate) proof fn announcements_are_lawful(window: WindowView, message: Message, now: u64)
    requires
        window.has_headroom(),
        may_arrive(window, message),
        group_of(message) is Announcements,
    ensures
        lawful(window, message, window.update(message, now).0, window.update(message, now).1),
{
    if let Message::ConfigUpdated(payload) = message {
        let seen = window.watcher_event().confirming();
        normalizing_gives_supported_settings(payload, window.settings.choices);
        let config = normalized(payload, window.settings.choices);
        let confirmed = Message::ConfigConfirmed {
            generation: seen.settings.config_confirmation_generation,
            was_active_leader: seen.is_active_leader(),
            config,
        };
        if !window.is_hydrating() && !window.settings.config_context {
            confirmations_are_lawful(seen, confirmed, now);
            assert(window.update(message, now) == seen.update(confirmed, now));
        }
    }
}

#[verifier::rlimit(40)]
pub(crate) proof fn prunes_are_lawful(window: WindowView, message: Message, now: u64)
    requires
        window.has_headroom(),
        may_arrive(window, message),
        group_of(message) is Prunes,
    ensures
        lawful(window, message, window.update(message, now).0, window.update(message, now).1),
{
    if let Message::Pruned { images, tail } = message {
        let pruned = window.with_images(images@);
        if let PruneTail::Housekeeping { shuffle_changed, accent_flip } = tail {
            let w1 = pruned.sync_shuffle(false).0;
            let w2 = if shuffle_changed {
                w1.sync_shuffle(true).0
            } else {
                w1
            };
            if let Some(enabled) = accent_flip {
                toggle_stays_quiet(w2, enabled, false);
            }
        }
    }
}

#[verifier::rlimit(40)]
pub(crate) proof fn toggles_are_lawful(window: WindowView, message: Message, now: u64)
    requires
        window.has_headroom(),
        may_arrive(window, message),
        group_of(message) is Toggles,
    ensures
        lawful(window, message, window.update(message, now).0, window.update(message, now).1),
{
    if let Message::SetAccentEnabled(enabled) = message {
        if window.is_active_leader() {
            toggle_stays_quiet(window, enabled, false);
        }
    }
}

#[verifier::rlimit(40)]
pub(crate) proof fn accent_messages_are_lawful(window: WindowView, message: Message, now: u64)
    requires
        window.has_headroom(),
        may_arrive(window, message),
        group_of(message) is AccentSteps,
    ensures
        lawful(window, message, window.update(message, now).0, window.update(message, now).1),
{
    if let Message::AccentPlanned { action, builders } = message {
        plans_stay_within(window, action, builders);
    }
    if let Message::AccentsRead { accents, after } = message {
        capture_stays_quiet(window, accents, after);
    }
}

#[verifier::rlimit(40)]
pub(crate) proof fn answers_are_lawful(window: WindowView, message: Message, now: u64)
    requires
        window.has_headroom(),
        may_arrive(window, message),
        group_of(message) is AccentAnswers,
    ensures
        lawful(window, message, window.update(message, now).0, window.update(message, now).1),
{
    if let Message::AccentPersisted { step, landed } = message {
        answers_stay_within(window, step, landed);
    }
}

#[verifier::rlimit(40)]
pub(crate) proof fn completions_are_lawful(window: WindowView, message: Message, now: u64)
    requires
        window.has_headroom(),
        may_arrive(window, message),
        group_of(message) is AccentCompletions,
    ensures
        lawful(window, message, window.update(message, now).0, window.update(message, now).1),
{
    if let Message::AccentWriteFinished { generation, success, disk_enabled } = message {
        if window.is_active_leader() {
            completions_stay_within(window, generation, success, disk_enabled);
        }
    }
}

/// A process that is not the active leader does no shared work, whatever
/// arrives: it arms no timer, fetches nothing, deletes nothing, touches no
/// theme, and takes images over only from a reload.
pub proof fn followers_stay_inert(window: WindowView, message: Message, now: u64)
    requires
        window.has_headroom(),
        may_arrive(window, message),
    ensures
        follower_stays_inert(
            window,
            message,
            window.update(message, now).0,
            window.update(message, now).1,
        ),
{
    every_message_is_in_order(window, message, now);
}

/// An active leader stays one; any other process becomes one only by a
/// takeover snapshot that was read to the end, is the newest one asked for,
/// and was not outdated by a watcher event.
pub proof fn only_a_current_snapshot_makes_a_leader(window: WindowView, message: Message, now: u64)
    requires
        window.has_headroom(),
        may_arrive(window, message),
    ensures
        leaders_are_made_by_snapshots(window, message, window.update(message, now).0),
{
    every_message_is_in_order(window, message, now);
}

/// The counters that tell a current tick from a stale one never go down, so
/// that a tick once stale stays stale; one message takes at most the room
/// that `has_headroom` asks for.
pub proof fn timers_never_run_backwards(window: WindowView, message: Message, now: u64)
    requires
        window.has_headroom(),
        may_arrive(window, message),
    ensures
        generations_grow(window, window.update(message, now).0),
{
    every_message_is_in_order(window, message, now);
}

/// No message but the close of a surface, or of the popup the menus hang on,
/// lowers the count of open menus.
pub proof fn menus_are_counted_until_closed(window: WindowView, message: Message, now: u64)
    requires
        window.has_headroom(),
        may_arrive(window, message),
    ensures
        only_closes_lower_the_menu_count(window, message, window.update(message, now).0),
{
    every_message_is_in_order(window, message, now);
}

/// The catalogue is replaced by the answer to a merge or a prune, by a
/// follower's reload and by a takeover, and by nothing else.
pub proof fn the_catalogue_has_four_keepers(window: WindowView, message: Message, now: u64)
    requires
        window.has_headroom(),
        may_arrive(window, message),
    ensures
        catalogue_changes_by_its_keepers(window, message, window.update(message, now).0),
{
    every_message_is_in_order(window, message, now);
}

/// A leader switches the accent feature on only when the persist of its flag
/// was answered as landed: whatever else arrives, it stays off.
pub proof fn the_flag_lands_before_the_feature_is_on(window: WindowView, message: Message, now: u64)
    requires
        window.has_headroom(),
        may_arrive(window, message),
    ensures
        only_landed_flags_switch_on(window, message, window.update(message, now).0),
{
    every_message_is_in_order(window, message, now);
}

/// A leader's record of the user's own accents outlives everything but the
/// answer to its own persist, a plan that says it is not needed, and a
/// restore of a disable that landed.
pub proof fn the_users_accents_are_not_forgotten(window: WindowView, message: Message, now: u64)
    requires
        window.has_headroom(),
        may_arrive(window, message),
    ensures
        snapshots_are_kept(window, message, window.update(message, now).0),
{
    every_message_is_in_order(window, message, now);
}

/// At most one theme task is in flight: each one started is recorded with
/// its generation, nothing but its own completion takes it off the record,
/// and no step waits for an answer beside it.
pub proof fn theme_tasks_never_overlap(window: WindowView, message: Message, now: u64)
    requires
        window.has_headroom(),
        may_arrive(window, message),
    ensures
        one_theme_task_at_a_time(
            window,
            message,
            window.update(message, now).0,
            window.update(message, now).1,
        ),
{
    every_message_is_in_order(window, message, now);
}

/// Whatever arrives, the launcher is handed nothing but web addresses and
/// absolute paths.
pub proof fn the_launcher_gets_no_flags(window: WindowView, message: Message, now: u64)
    requires
        window.has_headroom(),
        may_arrive(window, message),
    ensures
        opens_with_care(window.update(message, now).1),
{
    every_message_is_in_order(window, message, now);
}

/// Whatever arrives, only supported settings are taken over, queued or
/// written: a hand-edited retention is in force nowhere.
pub proof fn only_supported_settings_are_adopted(window: WindowView, message: Message, now: u64)
    requires
        window.has_headroom(),
        may_arrive(window, message),
        settings_are_supported(window),
        reports_supported_settings(window, message),
    ensures
        settings_are_supported(window.update(message, now).0),
        settings_stay_supported(
            window,
            message,
            window.update(message, now).0,
            window.update(message, now).1,
        ),
{
    every_message_is_in_order(window, message, now);
}

/// The applet starts with supported settings, whatever stands on disk, and a
/// takeover reads none but supported ones.
pub proof fn startup_settings_are_supported(
    boot: Boot,
    read: AppletConfig,
    coordination: Result<CoordinationConfig, String>,
)
    ensures
        settings_are_supported(WindowView::booted(boot).arm_initial_duties(boot.live).0),
        hydration_of(Ok(read), boot.choices@, coordination, boot.restore, boot.live) matches Ok(
            hydration,
        ) ==> boot.choices@.support(hydration.config),
{
}

/// Whether a message belongs to work that newer work has replaced.
pub open spec fn is_stale(window: WindowView, message: Message) -> bool {
    match message {
        Message::ConfigConfirmed { generation, was_active_leader, config } => generation
            != window.settings.config_confirmation_generation || was_active_leader
            != window.is_active_leader(),
        Message::PeerRefreshLiveRead { request, live } => window.peers.peer_refresh_live_read
            != Some(request),
        Message::LeadershipTick(generation) => generation != window.role.leadership_generation,
        Message::LeadershipHydrated { generation, state_generation, result } => generation
            != window.role.leadership_hydration_generation,
        Message::NonLeaderReloaded { generation, result } => generation
            != window.peers.non_leader_reload_generation,
        Message::RefreshDue(generation) => generation != window.timers.timer_generation,
        Message::PeerRefreshTimeout { generation, request } => generation
            != window.peers.peer_refresh_timeout_generation
            || window.peers.requested_peer_refresh != Some(request),
        Message::PeerApplyValidated { generation, live } => generation
            != window.peers.peer_apply_notice_generation,
        Message::ShuffleDue(generation) => generation != window.timers.shuffle_generation,
        Message::AccentWriteFinished { generation, success, disk_enabled } => generation
            != window.accent.accent_write_generation,
        Message::LockPokeDue(generation) => generation != window.timers.lock_poke_generation,
        _ => false,
    }
}

/// A message of work that newer work has replaced changes nothing and leads
/// to nothing.
pub proof fn stale_messages_change_nothing(window: WindowView, message: Message, now: u64)
    requires
        is_stale(window, message),
    ensures
        window.update(message, now) == (window, TaskView::none()),
{
}

/// Arming a timer anew replaces whatever was pending: a tick of any earlier
/// generation is stale from then on. Disarming the shuffle does the same.
pub proof fn arming_replaces_what_was_pending(
    window: WindowView,
    delay: RefreshDelay,
    earlier: u64,
)
    requires
        window.is_active_leader(),
        window.has_headroom(),
    ensures
        earlier <= window.timers.timer_generation ==> is_stale(
            window.schedule_refresh(delay).0,
            Message::RefreshDue(earlier),
        ),
        earlier <= window.timers.shuffle_generation ==> is_stale(
            window.arm_shuffle().0,
            Message::ShuffleDue(earlier),
        ) && is_stale(window.disarm_shuffle(), Message::ShuffleDue(earlier)),
        earlier <= window.timers.lock_poke_generation ==> is_stale(
            window.arm_lock_pokes().0,
            Message::LockPokeDue(earlier),
        ),
{
}

/// What a timer is armed with is what its tick is compared against: the tick
/// of the newest arming is not stale.
pub proof fn the_newest_tick_counts(window: WindowView, delay: RefreshDelay)
    requires
        window.is_active_leader(),
        window.has_headroom(),
    ensures
        window.schedule_refresh(delay).1.effects == seq![
            Effect::RefreshTimer {
                generation: window.schedule_refresh(delay).0.timers.timer_generation,
                delay,
            },
        ],
        window.arm_shuffle().1.effects == seq![
            Effect::ShuffleTimer {
                generation: window.arm_shuffle().0.timers.shuffle_generation,
                interval_secs: window.settings.config.shuffle_interval_secs,
            },
        ],
        window.arm_shuffle().0.timers.shuffle_armed,
        forall|i: int|
            0 <= i < window.arm_lock_pokes().1.effects.len() ==> (
            #[trigger] window.arm_lock_pokes().1.effects[i]) == (Effect::LockPokeTimer {
                generation: window.arm_lock_pokes().0.timers.lock_poke_generation,
                rung: i as u8,
            }),
{
}

/// An apply of the user's in a follower outdates the reload in flight, which
/// has read what was displayed before.
pub proof fn a_follower_apply_outdates_the_reload(
    window: WindowView,
    path: PathBuf,
    result: Result<NonLeaderReload, String>,
    now: u64,
)
    requires
        !window.is_active_leader(),
    ensures
        is_stale(
            window.finish_manual_apply(path).0,
            Message::NonLeaderReloaded {
                generation: window.peers.non_leader_reload_generation,
                result,
            },
        ),
{
}

} // verus!
