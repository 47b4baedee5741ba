//! The messages the applet reacts to.

use vstd::prelude::*;
use crate::accent::{AccentAction, AccentAfter, AccentStep, Builders};
use crate::catalogue::{ImageEntry, NonLeaderReload};
use crate::coordination::{CoordinationConfig, PeerApplyNotice, PeerRefreshCompletion};
use crate::effect::{ApplyOutcome, ApplyReason, LiveUse, MergeTail, PruneTail, SurfaceAction};
use crate::fetch::{RefreshBatch, RefreshError};
use crate::settings::{AccentSnapshot, AppletConfig, AppletSetting};
use crate::wallpaper::CurrentWallpaper;
use crate::window::LeadershipHydration;
use std::path::PathBuf;

verus! {

/// What the session watch reports.
#[derive(Clone, Copy, Debug, PartialEq, Eq, Structural)]
pub enum LockEvent {
    Locked,
    Resumed,
}

/// Something the applet reacts to.
#[derive(Debug, PartialEq, Eq)]
pub enum Message {
    /// The panel icon was clicked.
    TogglePopup,
    /// The popup that was asked for got this id.
    PopupOpened(u64),
    /// A popup surface closed.
    PopupClosed(u64),
    /// The settings changed on disk; the payload may be late, and hold what
    /// somebody wrote by hand.
    ConfigUpdated(AppletConfig),
    /// The settings as read from disk for a change.
    ConfigConfirmed { generation: u64, was_active_leader: bool, config: AppletConfig },
    /// The mailbox changed.
    CoordinationUpdated(CoordinationConfig),
    /// The display was read for a peer's refresh request.
    PeerRefreshLiveRead { request: u64, live: CurrentWallpaper },
    /// The leadership retry timer fired.
    LeadershipTick(u64),
    /// The leader lock was tried.
    LeadershipTried(bool),
    /// The state behind the leader lock was read.
    LeadershipHydrated {
        generation: u64,
        state_generation: u64,
        result: Result<LeadershipHydration, String>,
    },
    /// A follower's reload finished.
    NonLeaderReloaded { generation: u64, result: Result<NonLeaderReload, String> },
    /// A setting write completed.
    AppletSettingWritten { generation: u64, setting: AppletSetting, result: Result<(), String> },
    /// The refresh timer fired.
    RefreshDue(u64),
    /// The display was read.
    LiveRead { purpose: LiveUse, live: CurrentWallpaper },
    /// A fetch finished over this display.
    RefreshFinished { result: Result<RefreshBatch, RefreshError>, live: CurrentWallpaper },
    /// The catalogue after a merge.
    Merged { images: Vec<ImageEntry>, tail: MergeTail },
    /// The catalogue after a prune.
    Pruned { images: Vec<ImageEntry>, tail: PruneTail },
    /// A follower's request was written, under this number.
    PeerRefreshRequested(Result<u64, String>),
    /// An acknowledgement was written, unless a newer one was there.
    PeerRefreshCompletionWritten {
        completion: PeerRefreshCompletion,
        result: Result<bool, String>,
    },
    /// A follower's request was not answered in time.
    PeerRefreshTimeout { generation: u64, request: u64 },
    /// A follower's apply notice was written.
    PeerApplyNoticeWritten(Result<PeerApplyNotice, String>),
    /// The display was read for a peer's apply.
    PeerApplyValidated { generation: u64, live: CurrentWallpaper },
    /// A thumbnail pass ended over this display.
    ThumbnailsReady(CurrentWallpaper),
    /// The user browsed to an image.
    ApplyImage(PathBuf),
    /// An apply was answered.
    Applied { path: PathBuf, why: ApplyReason, outcome: ApplyOutcome },
    /// The refresh button.
    RefreshNow,
    /// The link about an image was clicked.
    OpenUrl(String),
    /// A thumbnail was clicked.
    OpenFile(PathBuf),
    /// The shuffle timer fired.
    ShuffleDue(u64),
    /// An image was picked for the shuffle, if there is another one.
    ShufflePicked(Option<PathBuf>),
    /// The shuffle toggler.
    SetShuffleEnabled(bool),
    /// The shuffle interval dropdown; carries the index of the choice.
    SetShuffleInterval(usize),
    /// The retention dropdown; carries the index of the choice.
    SetRetention(usize),
    /// The accent toggler.
    SetAccentEnabled(bool),
    /// An accent was extracted from `source`.
    AccentComputed { source: PathBuf, hue: Option<u32> },
    /// An extracted accent was planned.
    AccentPlanned { action: AccentAction, builders: Builders },
    /// The accents both themes hold.
    AccentsRead { accents: AccentSnapshot, after: AccentAfter },
    /// A checked persist was answered.
    AccentPersisted { step: AccentStep, landed: bool },
    /// The accent flag on disk at the start of a flight.
    AccentBaseline(Option<bool>),
    /// A theme task completed; carries the accent flag on disk then.
    AccentWriteFinished { generation: u64, success: bool, disk_enabled: Option<bool> },
    /// The session was locked or resumed.
    LockEvent(LockEvent),
    /// A rung of the lock-poke ladder came due.
    LockPokeDue(u64),
    /// A poke finished; says whether it wrote anything.
    LockPokeFinished(bool),
    /// A surface request of the tooltip.
    TooltipSurface(SurfaceAction),
    /// A surface request of a dropdown menu.
    DropdownSurface(SurfaceAction),
}

} // verus!
