//! The work a message leads to. The library decides it; the shell does it.

use vstd::prelude::*;
use crate::accent::{AccentAfter, AccentJob, AccentStep};
use crate::backfill::Backfill;
use crate::catalogue::ImageEntry;
use crate::coordination::PeerRefreshCompletion;
use crate::fetch::Downloads;
use crate::schedule::RefreshDelay;
use crate::settings::{AccentPair, AccentSnapshot, AppletConfig, AppletSetting, ConfigWrite};
use crate::wallpaper::{CurrentWallpaper, LiveFile};
use std::path::PathBuf;

verus! {

/// The id of the one surface all tooltips share. Surface ids are numbers the
/// shell hands out; it keeps this one for the tooltip.
pub const TOOLTIP_ID: u64 = 0;

/// A request of a widget to the compositor. What a create carries stays with
/// the shell, under a number.
#[derive(Clone, Copy, Debug, PartialEq, Eq, Structural)]
pub enum SurfaceAction {
    /// Map a popup.
    Popup(u64),
    /// Map a popup whose settings the application provides.
    AppPopup(u64),
    /// Destroy the surface with this id.
    DestroyPopup(u64),
    /// Any other request.
    Other(u64),
}

/// The files the two deleting passes spare.
#[derive(Clone, Debug, PartialEq, Eq)]
pub struct Protected {
    pub current: Option<PathBuf>,
    pub fallback: Option<PathBuf>,
}

/// What is left of a refresh after its catalogue was merged.
#[derive(Clone, Debug, PartialEq, Eq)]
pub struct RefreshTail {
    /// The peer request this refresh covers.
    pub peer_request: Option<u64>,
    /// The response handed something over.
    pub delivered: bool,
    /// The file displayed when the refresh finished.
    pub live: Option<LiveFile>,
    /// The response's newest publication time.
    pub anchor: String,
}

/// What is left of a refresh while its catalogue is being merged.
#[derive(Clone, Debug, PartialEq, Eq)]
pub struct MergeTail {
    pub live: CurrentWallpaper,
    pub thumbnails_deferred: bool,
    pub refresh: RefreshTail,
}

/// What follows a prune.
#[derive(Clone, Debug, PartialEq, Eq)]
pub enum PruneTail {
    /// The shuffle timer follows the catalogue, and so does the rest of a
    /// settings change: a changed shuffle setting, an accent flip.
    Housekeeping { shuffle_changed: bool, accent_flip: Option<bool> },
    /// The rest of a refresh.
    Refresh(RefreshTail),
}

/// What a reading of the displayed wallpaper is for.
#[derive(Clone, Copy, Debug, PartialEq, Eq, Structural)]
pub enum LiveUse {
    StartRefresh,
    /// A prune, with what follows it.
    Prune { shuffle_changed: bool, accent_flip: Option<bool> },
}

/// Why a wallpaper is being applied.
#[derive(Clone, Debug, PartialEq, Eq)]
pub enum ApplyReason {
    /// The user browsed to it.
    Manual,
    /// The shuffle timer picked it.
    Shuffle,
    /// A refresh brought it.
    Refresh(RefreshTail),
}

/// How an apply went.
#[derive(Clone, Copy, Debug, PartialEq, Eq, Structural)]
pub enum ApplyOutcome {
    Applied,
    /// Refused; `file_gone` says that the file is no longer there.
    Failed { file_gone: bool },
}

/// Work the shell does at once, in the order listed, before it hands over any
/// other message. Where a call has an answer, the answer is the message named
/// with it.
#[derive(Clone, Debug, PartialEq, Eq)]
pub enum Call {
    /// Try to take the leader lock: `LeadershipTried`.
    TryAcquireLeadership,
    /// Read the displayed wallpaper: `LiveRead`.
    ReadLive(LiveUse),
    /// Pick a random catalogued image other than `current`: `ShufflePicked`.
    PickOther { current: Option<PathBuf> },
    /// Apply a wallpaper: `Applied`.
    Apply { path: PathBuf, why: ApplyReason },
    /// Merge fetched entries into the catalogue, then remove the entries and
    /// files of the listed ineligible images, sparing the protected files:
    /// `Merged`.
    Merge {
        fetched: Vec<ImageEntry>,
        ineligible: Option<Vec<String>>,
        protected: Protected,
        tail: MergeTail,
    },
    /// Prune the catalogue, sweep the thumbnail cache if asked to, and save
    /// the catalogue: `Pruned`.
    Prune { retention_days: u16, protected: Protected, sweep: bool, tail: PruneTail },
    /// Sweep the thumbnail cache down to the catalogue.
    SweepThumbnails,
    /// Open a web page in the browser.
    OpenUrl(String),
    /// Open a file in its viewer.
    OpenFile(PathBuf),
    /// Read the theme builders and plan a computed accent against them:
    /// `AccentPlanned`.
    PlanAccent {
        enabled: bool,
        snapshot: Option<AccentSnapshot>,
        last_written: Option<AccentPair>,
        hue: Option<u32>,
    },
    /// Read the accents both themes hold: `AccentsRead`.
    ReadAccents { after: AccentAfter },
    /// Read the accent flag on disk: `AccentBaseline`.
    ReadAccentBaseline,
    /// Persist one settings key. A failure is logged.
    Persist(ConfigWrite),
    /// Persist one settings key and say whether it landed: `AccentPersisted`.
    PersistChecked { write: ConfigWrite, step: AccentStep },
}

/// Work the shell starts in the background. Where it ends in a message, that
/// message is named. The surface requests of one task reach the compositor in
/// the order listed.
#[derive(Clone, Debug, PartialEq, Eq)]
pub enum Effect {
    /// Sleep, then `LeadershipTick`.
    LeadershipRetry { generation: u64 },
    /// Read everything a takeover needs, opening the contexts that are not
    /// open yet: `LeadershipHydrated`.
    Hydrate {
        generation: u64,
        state_generation: u64,
        config_open: bool,
        coordination_open: bool,
    },
    /// Open the applet's popup under a fresh id: `PopupOpened`.
    OpenPopup,
    /// Hand a request to the compositor.
    Surface(SurfaceAction),
    /// Read the settings from disk, or fall back to `payload`:
    /// `ConfigConfirmed`.
    ConfirmConfig { generation: u64, was_active_leader: bool, payload: AppletConfig },
    /// Persist one setting: `AppletSettingWritten`.
    WriteSetting { generation: u64, setting: AppletSetting },
    /// Sleep, then `RefreshDue`.
    RefreshTimer { generation: u64, delay: RefreshDelay },
    /// Sleep for the shuffle interval, then `ShuffleDue`.
    ShuffleTimer { generation: u64, interval_secs: u32 },
    /// Sleep for the rung's delay, then `LockPokeDue`.
    LockPokeTimer { generation: u64, rung: u8 },
    /// Poke the lock screen: `LockPokeFinished`.
    PokeLockScreen,
    /// Bump the request counter of the mailbox: `PeerRefreshRequested`.
    RequestPeerRefresh,
    /// Sleep, then `PeerRefreshTimeout`.
    PeerRefreshTimer { generation: u64, request: u64 },
    /// Read catalogue and wallpaper for a follower: `NonLeaderReloaded`.
    Reload { generation: u64 },
    /// Leave a notice of an apply in the mailbox: `PeerApplyNoticeWritten`.
    WriteApplyNotice { path: PathBuf },
    /// Read the displayed wallpaper for an apply notice:
    /// `PeerApplyValidated`.
    ValidateApply { generation: u64 },
    /// Read the displayed wallpaper for a peer's refresh request:
    /// `PeerRefreshLiveRead`.
    ReadLiveForPeer { request: u64 },
    /// Acknowledge a peer's refresh request in the mailbox:
    /// `PeerRefreshCompletionWritten`.
    RecordCompletion { completion: PeerRefreshCompletion },
    /// Fetch, over the catalogue as it is afterwards: `RefreshFinished`.
    Refresh { downloads: Downloads, backfill: Backfill },
    /// Generate missing thumbnails, over the catalogue as it is afterwards:
    /// `ThumbnailsReady`.
    ThumbnailPass { backfill: Backfill },
    /// Extract the accent of a wallpaper: `AccentComputed`, or nothing.
    ComputeAccent { source: PathBuf },
    /// Write theme accents: `AccentWriteFinished`.
    AccentTask { generation: u64, job: AccentJob },
}

/// The work a message leads to.
#[derive(Clone, Debug, PartialEq, Eq)]
pub struct Task {
    /// Done at once, first.
    pub calls: Vec<Call>,
    /// Started in the background, after that.
    pub effects: Vec<Effect>,
}

/// The work a message leads to, as sequences.
#[verifier::ext_equal]
pub struct TaskView {
    pub calls: Seq<Call>,
    pub effects: Seq<Effect>,
}

impl View for Task {
    type V = TaskView;

    open spec fn view(&self) -> TaskView {
        TaskView { calls: self.calls@, effects: self.effects@ }
    }
}

impl TaskView {
    /// No work.
    pub open spec fn none() -> TaskView {
        TaskView { calls: Seq::empty(), effects: Seq::empty() }
    }

    /// One call.
    pub open spec fn call(call: Call) -> TaskView {
        TaskView { calls: seq![call], effects: Seq::empty() }
    }

    /// One piece of background work.
    pub open spec fn effect(effect: Effect) -> TaskView {
        TaskView { calls: Seq::empty(), effects: seq![effect] }
    }

    /// This work, then `other`.
    pub open spec fn and(self, other: TaskView) -> TaskView {
        TaskView { calls: self.calls + other.calls, effects: self.effects + other.effects }
    }
}

impl Task {
    /// No work.
    pub fn none() -> (task: Task)
        ensures
            task@ == TaskView::none(),
    {
        Task { calls: Vec::new(), effects: Vec::new() }
    }

    /// One call.
    pub fn call(call: Call) -> (task: Task)
        ensures
            task@ == TaskView::call(call),
    {
        let mut calls: Vec<Call> = Vec::new();
        calls.push(call);
        Task { calls, effects: Vec::new() }
    }

    /// One piece of background work.
    pub fn effect(effect: Effect) -> (task: Task)
        ensures
            task@ == TaskView::effect(effect),
    {
        let mut effects: Vec<Effect> = Vec::new();
        effects.push(effect);
        Task { calls: Vec::new(), effects }
    }

    /// This work, then `other`.
    pub fn and(self, other: Task) -> (task: Task)
        ensures
            task@ == self@.and(other@),
    {
        let mut task: Task = self;
        let mut rest: Task = other;
        task.calls.append(&mut rest.calls);
        task.effects.append(&mut rest.effects);
        task
    }

    /// How many pieces of background work the task starts.
    pub fn units(&self) -> (count: usize)
        ensures
            count == self@.effects.len(),
    {
        self.effects.len()
    }
}

} // verus!
