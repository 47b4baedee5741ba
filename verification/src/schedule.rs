//! When the next refresh is due, how much of the archive it considers, and
//! what a successful one leads to.

use vstd::prelude::*;
use crate::wallpaper::should_auto_apply;

verus! {

/// Seconds between two attempts of a surviving process to become the leader.
pub const LEADERSHIP_RETRY_SECS: u64 = 60;

/// Seconds a requester waits for the leader to acknowledge a refresh.
pub const PEER_REFRESH_ACK_TIMEOUT_SECS: u64 = 300;

/// Seconds until a failed refresh is tried again.
pub const ERROR_RETRY_SECS: u64 = 3_600;

/// How many positions the archive lists.
pub const ARCHIVE_WINDOW: u8 = 8;

/// When the refresh timer fires.
#[derive(Clone, Debug, PartialEq, Eq)]
pub enum RefreshDelay {
    /// After a fixed number of seconds.
    Seconds(u64),
    /// A day after the given publication time, as the shell's clock has it;
    /// without one, soon.
    AfterPublication(Option<String>),
}

/// How many of the newest archive positions a refresh considers.
pub open spec fn horizon_for(retention_days: u16) -> u8 {
    if retention_days == 0 || retention_days >= ARCHIVE_WINDOW {
        ARCHIVE_WINDOW
    } else {
        retention_days as u8
    }
}

/// How many of the newest archive positions a refresh considers: as many as
/// there are days of retention, and all of them when images are kept for
/// eight days or longer, or forever.
pub fn download_horizon(retention_days: u16) -> (horizon: u8)
    ensures
        horizon == horizon_for(retention_days),
        1 <= horizon <= ARCHIVE_WINDOW,
{
    if retention_days == 0 || retention_days >= 8 {
        ARCHIVE_WINDOW
    } else {
        retention_days as u8
    }
}

/// Whether `new` keeps images for a shorter time than `old`; `0` is forever.
pub open spec fn keeps_less(old: u16, new: u16) -> bool {
    new != 0 && (old == 0 || new < old)
}

/// Whether a retention change may leave images over the limit.
pub fn retention_reduced(old: u16, new: u16) -> (reduced: bool)
    ensures
        reduced == keeps_less(old, new),
{
    new != 0 && (old == 0 || new < old)
}

/// The number after `generation`; the largest one is followed by zero.
pub open spec fn next_number(generation: u64) -> u64 {
    if generation == u64::MAX {
        0
    } else {
        (generation + 1) as u64
    }
}

/// The number after `generation`, wrapping round.
pub fn next_generation(generation: u64) -> (next: u64)
    ensures
        next == next_number(generation),
{
    generation.wrapping_add(1)
}

/// What to do after a successful fetch.
#[derive(Clone, Debug, PartialEq, Eq)]
pub struct RefreshSuccessPlan {
    pub auto_apply: bool,
    pub delay: RefreshDelay,
}

/// Whether a successful fetch applies an image.
pub open spec fn plan_applies(
    cold_start_pending: bool,
    live_is_ours: bool,
    has_images: bool,
    delivered: bool,
) -> bool {
    has_images && (cold_start_pending || delivered) && (cold_start_pending || live_is_ours)
}

/// When the refresh after a successful one is due.
pub open spec fn next_due(anchor: String) -> RefreshDelay {
    RefreshDelay::AfterPublication(Some(anchor))
}

/// The decisions after a successful fetch: whether to auto-apply, and when
/// the next refresh is due.
///
/// `has_images` comes from the catalogue after the merge and says whether
/// there is anything to apply; `anchor`, the response's newest publication
/// time, says when the next image is due. `delivered` says whether the
/// response handed anything over: a response without an eligible image keeps
/// the current wallpaper even though it is ours. A cold start is exempt from
/// that, a restored catalogue being all it has to offer.
pub fn refresh_success_plan(
    cold_start_pending: bool,
    live_is_ours: bool,
    has_images: bool,
    delivered: bool,
    anchor: String,
) -> (plan: RefreshSuccessPlan)
    ensures
        plan == (RefreshSuccessPlan {
            auto_apply: plan_applies(cold_start_pending, live_is_ours, has_images, delivered),
            delay: next_due(anchor),
        }),
{
    RefreshSuccessPlan {
        auto_apply: has_images && (cold_start_pending || delivered)
            && should_auto_apply(cold_start_pending, live_is_ours),
        delay: RefreshDelay::AfterPublication(Some(anchor)),
    }
}

/// A response that delivered nothing never moves a warm wallpaper.
pub proof fn undelivered_refresh_moves_nothing_warm(live_is_ours: bool, has_images: bool)
    ensures
        !plan_applies(false, live_is_ours, has_images, false),
{
}

/// A warm refresh never replaces a wallpaper that is not the applet's own.
pub proof fn warm_refresh_spares_foreign_wallpapers(has_images: bool, delivered: bool)
    ensures
        !plan_applies(false, false, has_images, delivered),
{
}

} // verus!
