//! The few words in which the promises of single operations are stated.

use vstd::prelude::*;
use crate::effect::{Call, Effect};
use crate::wallpaper::{ColdStart, CurrentWallpaper, LiveFile};
use crate::window::WindowView;
use std::path::PathBuf;

verus! {

/// The process holds the leader lock and has read the state behind it.
pub open spec fn leads(window: WindowView) -> bool {
    window.role.leadership.leader && window.role.leader_readiness is Ready
}

/// None of the counters that never wrap is near its end.
pub open spec fn roomy(window: WindowView) -> bool {
    &&& window.timers.timer_generation < u64::MAX - 2
    &&& window.timers.shuffle_generation < u64::MAX - 2
    &&& window.timers.lock_poke_generation < u64::MAX - 2
    &&& window.accent.accent_write_generation < u64::MAX - 2
}

/// `effect` as the only one where it is wanted, else none.
pub open spec fn started_if(wanted: bool, effect: Effect) -> Seq<Effect> {
    if wanted {
        seq![effect]
    } else {
        Seq::empty()
    }
}

/// `call` as the only one where it is wanted, else none.
pub open spec fn called_if(wanted: bool, call: Call) -> Seq<Call> {
    if wanted {
        seq![call]
    } else {
        Seq::empty()
    }
}

/// Whether `after` is what counts as applied once `live` was read, where
/// `before` did until then.
pub open spec fn follows_display(
    live: CurrentWallpaper,
    before: Option<PathBuf>,
    after: Option<PathBuf>,
) -> bool {
    match live {
        CurrentWallpaper::File(file) => after == Some(file.path),
        CurrentWallpaper::NoFile => after is None,
        CurrentWallpaper::Unknown => after == before,
    }
}

/// Whether `handed` is the number of days to go by over this display.
pub open spec fn days_hold(live: CurrentWallpaper, configured: u16, handed: u16) -> bool {
    if live is Unknown {
        handed == 0
    } else {
        handed == configured
    }
}

/// Whether an image may take the place of what is on display: it is ours, or
/// a first wallpaper is still owed and nothing was picked since that was
/// refused.
pub open spec fn may_replace(owed: ColdStart, shown: Option<LiveFile>) -> bool {
    ||| shown is Some && shown->0.ours
    ||| owed is Pending
    ||| owed matches ColdStart::RetryOver(refused_over) && (shown is None || refused_over == Some(
        shown->0.path,
    ))
}

/// The accent of an applied wallpaper is to be extracted.
pub open spec fn tints(window: WindowView) -> bool {
    leads(window) && window.settings.config.accent_enabled && window.accent.accent_handles
}

} // verus!
