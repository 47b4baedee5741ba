//! The mailbox through which the applet's processes talk to each other: one
//! leader does the shared work, the others ask and are answered.

use vstd::prelude::*;
use std::path::PathBuf;

verus! {

/// How the refresh that covered a peer's request went.
#[derive(Clone, Copy, Debug, PartialEq, Eq, Structural)]
pub enum PeerRefreshOutcome {
    Success,
    Network,
    Disk,
}

/// The leader's acknowledgement: every request up to `request` is covered.
#[derive(Clone, Copy, Debug, PartialEq, Eq, Structural)]
pub struct PeerRefreshCompletion {
    pub request: u64,
    pub outcome: PeerRefreshOutcome,
}

/// A follower's notice that it applied a wallpaper. The path is evidence only.
#[derive(Clone, Debug, PartialEq, Eq)]
pub struct PeerApplyNotice {
    pub generation: u64,
    pub path: PathBuf,
}

/// The mailbox entry.
#[derive(Clone, Debug, PartialEq, Eq)]
pub struct CoordinationConfig {
    /// Counter of refresh requests, bumped by followers.
    pub refresh_request: u64,
    pub refresh_completion: PeerRefreshCompletion,
    pub apply_notice: Option<PeerApplyNotice>,
}

/// A mailbox nobody wrote to.
pub open spec fn empty_mailbox() -> CoordinationConfig {
    CoordinationConfig {
        refresh_request: 0,
        refresh_completion: PeerRefreshCompletion {
            request: 0,
            outcome: PeerRefreshOutcome::Success,
        },
        apply_notice: None,
    }
}

impl Default for CoordinationConfig {
    fn default() -> (mailbox: CoordinationConfig)
        ensures
            mailbox == empty_mailbox(),
    {
        CoordinationConfig {
            refresh_request: 0,
            refresh_completion: PeerRefreshCompletion {
                request: 0,
                outcome: PeerRefreshOutcome::Success,
            },
            apply_notice: None,
        }
    }
}

impl Default for PeerRefreshCompletion {
    fn default() -> (completion: PeerRefreshCompletion)
        ensures
            completion == empty_mailbox().refresh_completion,
    {
        PeerRefreshCompletion { request: 0, outcome: PeerRefreshOutcome::Success }
    }
}

impl PeerApplyNotice {
    /// An exact copy of the notice.
    pub fn copy(&self) -> (copy: PeerApplyNotice)
        ensures
            copy == *self,
    {
        PeerApplyNotice { generation: self.generation, path: self.path.clone() }
    }
}

/// The generation of a notice; a missing one counts as zero.
pub open spec fn notice_generation(notice: Option<PeerApplyNotice>) -> u64 {
    match notice {
        Some(notice) => notice.generation,
        None => 0,
    }
}

/// The generation of a notice; a missing one counts as zero.
pub fn generation_of(notice: &Option<PeerApplyNotice>) -> (generation: u64)
    ensures
        generation == notice_generation(*notice),
{
    match notice {
        Some(notice) => notice.generation,
        None => 0,
    }
}

/// An exact copy of an optional notice.
pub fn copy_notice(notice: &Option<PeerApplyNotice>) -> (copy: Option<PeerApplyNotice>)
    ensures
        copy == *notice,
{
    match notice {
        Some(notice) => Some(notice.copy()),
        None => None,
    }
}

/// The larger of two counters.
pub open spec fn larger(left: u64, right: u64) -> u64 {
    if left < right {
        right
    } else {
        left
    }
}

/// The larger of two counters.
pub fn later(left: u64, right: u64) -> (result: u64)
    ensures
        result == larger(left, right),
{
    if left < right {
        right
    } else {
        left
    }
}

/// The mailbox known after `incoming` was seen: of each of the three entries
/// the newer one, and of two equally new ones the one already held.
pub open spec fn merged(
    current: CoordinationConfig,
    incoming: CoordinationConfig,
) -> CoordinationConfig {
    CoordinationConfig {
        refresh_request: larger(current.refresh_request, incoming.refresh_request),
        refresh_completion: if incoming.refresh_completion.request
            > current.refresh_completion.request {
            incoming.refresh_completion
        } else {
            current.refresh_completion
        },
        apply_notice: if notice_generation(incoming.apply_notice) > notice_generation(
            current.apply_notice,
        ) {
            incoming.apply_notice
        } else {
            current.apply_notice
        },
    }
}

/// Whether `newer` has lost nothing of what `older` recorded.
pub open spec fn covers(newer: CoordinationConfig, older: CoordinationConfig) -> bool {
    &&& newer.refresh_request >= older.refresh_request
    &&& newer.refresh_completion.request >= older.refresh_completion.request
    &&& notice_generation(newer.apply_notice) >= notice_generation(older.apply_notice)
}

/// Takes a mailbox snapshot over. Watchers may deliver snapshots out of
/// order, and the counters only ever grow, so every entry is merged
/// monotonically and a late snapshot never replaces a newer one.
pub fn merge_coordination(current: &mut CoordinationConfig, incoming: CoordinationConfig)
    ensures
        *final(current) == merged(*old(current), incoming),
{
    current.refresh_request = later(current.refresh_request, incoming.refresh_request);
    if incoming.refresh_completion.request > current.refresh_completion.request {
        current.refresh_completion = incoming.refresh_completion;
    }
    if generation_of(&incoming.apply_notice) > generation_of(&current.apply_notice) {
        current.apply_notice = incoming.apply_notice;
    }
}

/// A mailbox snapshot is never lost and never goes back: what was known
/// before and what arrived are both covered by what is known after.
pub proof fn merging_never_regresses(current: CoordinationConfig, incoming: CoordinationConfig)
    ensures
        covers(merged(current, incoming), current),
        covers(merged(current, incoming), incoming),
{
}

/// A snapshot that brings nothing new changes nothing, however late it is.
pub proof fn late_snapshots_change_nothing(
    current: CoordinationConfig,
    incoming: CoordinationConfig,
)
    requires
        covers(current, incoming),
    ensures
        merged(current, incoming) == current,
{
}

/// Seeing the same snapshot twice is the same as seeing it once.
pub proof fn merging_twice_is_merging_once(
    current: CoordinationConfig,
    incoming: CoordinationConfig,
)
    ensures
        merged(merged(current, incoming), incoming) == merged(current, incoming),
{
}

/// The order in which two snapshots are delivered does not matter to any of
/// the counters.
pub proof fn delivery_order_is_immaterial(
    current: CoordinationConfig,
    first: CoordinationConfig,
    second: CoordinationConfig,
)
    ensures
        covers(merged(merged(current, first), second), merged(merged(current, second), first)),
        covers(merged(merged(current, second), first), merged(merged(current, first), second)),
{
}

} // verus!
