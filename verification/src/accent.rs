//! The data of the accent-from-wallpaper feature: what a plan asks for, what
//! is in flight, and what follows a step of its lifecycle.

use vstd::prelude::*;
use crate::settings::{AccentPair, AccentSnapshot, Rgb};
use std::path::PathBuf;

verus! {

/// The theme builders a plan compared. The shell keeps them under `token`;
/// the accents they held are all that is decided upon.
#[derive(Clone, Copy, Debug, PartialEq, Eq, Structural)]
pub struct Builders {
    pub accents: AccentSnapshot,
    pub token: u64,
}

/// What the plan for a computed accent asks for.
#[derive(Clone, Copy, Debug, PartialEq, Eq, Structural)]
pub enum AccentAction {
    /// Write these accents; `snapshot_now` says that nothing of ours has
    /// landed yet, so that the current accents are still the user's.
    Write { light: Rgb, dark: Rgb, snapshot_now: bool },
    /// The accent was changed by someone else: switch the feature off.
    Disarm { keep_snapshot: bool },
    /// Nothing to do.
    Skip,
}

/// What the single accent task in flight is doing, with everything its
/// completion needs.
#[derive(Clone, Copy, Debug, PartialEq, Eq, Structural)]
pub enum AccentInflight {
    /// Accents are being written over `previous`.
    Write { builders: Builders, pair: AccentPair, previous: AccentSnapshot },
    /// A disable puts the user's accents back.
    DisableRestore { snapshot: AccentSnapshot },
    /// An enable first puts back the accents a failed disable left behind.
    EnableRestore { snapshot: AccentSnapshot },
    /// A write whose record could not be persisted is being undone.
    Rollback { pair: AccentPair, previous: AccentSnapshot },
}

/// The theme write an in-flight record stands for.
#[derive(Clone, Copy, Debug, PartialEq, Eq, Structural)]
pub enum AccentJob {
    Write { builders: Builders, light: Rgb, dark: Rgb },
    Restore(AccentSnapshot),
}

/// The theme write an in-flight record stands for.
pub open spec fn job_of(inflight: AccentInflight) -> AccentJob {
    match inflight {
        AccentInflight::Write { builders, pair, previous } => AccentJob::Write {
            builders,
            light: pair.light,
            dark: pair.dark,
        },
        AccentInflight::DisableRestore { snapshot } => AccentJob::Restore(snapshot),
        AccentInflight::EnableRestore { snapshot } => AccentJob::Restore(snapshot),
        AccentInflight::Rollback { pair, previous } => AccentJob::Restore(previous),
    }
}

/// Derives the theme write from the in-flight record.
pub fn accent_job(inflight: &AccentInflight) -> (job: AccentJob)
    ensures
        job == job_of(*inflight),
{
    match *inflight {
        AccentInflight::Write { builders, pair, previous } => AccentJob::Write {
            builders,
            light: pair.light,
            dark: pair.dark,
        },
        AccentInflight::DisableRestore { snapshot } => AccentJob::Restore(snapshot),
        AccentInflight::EnableRestore { snapshot } => AccentJob::Restore(snapshot),
        AccentInflight::Rollback { pair, previous } => AccentJob::Restore(previous),
    }
}

/// Whether a theme write landed.
pub open spec fn landed(result: Result<(), String>) -> bool {
    result is Ok
}

/// Whether a poke wrote anything.
pub open spec fn poke_wrote(result: Result<bool, String>) -> bool {
    match result {
        Ok(written) => written,
        Err(_) => false,
    }
}

/// The thumbnail an accent is extracted from, if one is.
pub open spec fn accent_source(is_cached: bool, thumbnail: Option<PathBuf>) -> Option<PathBuf> {
    if is_cached {
        thumbnail
    } else {
        None
    }
}

/// The answer of an accent extraction.
pub open spec fn hue_answer(decoded: Result<Option<u32>, String>) -> Option<Option<u32>> {
    match decoded {
        Ok(hue) => Some(hue),
        Err(_) => None,
    }
}

/// What the completion of a theme write reports: whether it landed. The
/// failure itself was logged where it happened.
pub fn run_accent_job(result: Result<(), String>) -> (success: bool)
    ensures
        success == landed(result),
{
    match result {
        Ok(_) => true,
        Err(_) => false,
    }
}

/// What the completion of a lock-screen poke reports: whether it wrote
/// anything. A failed poke wrote nothing.
pub fn run_lock_poke(result: Result<bool, String>) -> (wrote: bool)
    ensures
        wrote == poke_wrote(result),
{
    match result {
        Ok(written) => written,
        Err(_) => false,
    }
}

/// The thumbnail to extract an accent from: only a cached one is ever read,
/// since generating it would decode the full image on every apply.
pub fn extract_accent_hue(is_cached: bool, thumbnail: Option<PathBuf>) -> (decode: Option<PathBuf>)
    ensures
        decode == accent_source(is_cached, thumbnail),
{
    if is_cached {
        thumbnail
    } else {
        None
    }
}

/// The answer of an accent extraction. `None` is a failure, which changes
/// nothing; `Some(None)` is an effectively grey wallpaper. A hue travels as
/// the bit pattern the shell gave it.
pub fn extracted_hue(decoded: Result<Option<u32>, String>) -> (answer: Option<Option<u32>>)
    ensures
        answer == hue_answer(decoded),
{
    match decoded {
        Ok(hue) => Some(hue),
        Err(_) => None,
    }
}

/// What follows a step of the accent lifecycle that had to wait for the
/// disk.
#[derive(Clone, Copy, Debug, PartialEq, Eq, Structural)]
pub enum AccentAfter {
    /// Nothing: a toggle or an external flip ends here.
    Nothing,
    /// The step belongs to the completion of a theme task: reconcile what was
    /// deferred while it flew. Carries the flag on disk as it was read when
    /// the task completed.
    Reconcile { disk_enabled: Option<bool> },
    /// The step belongs to that reconcile: only the queued recompute is left.
    Recompute,
}

/// A step of the accent lifecycle whose checked persist is being waited for.
#[derive(Clone, Copy, Debug, PartialEq, Eq, Structural)]
pub enum AccentStep {
    /// The snapshot a first write needs.
    WriteSnapshot { builders: Builders, pair: AccentPair },
    /// The record of a write that landed.
    WriteRecord { pair: AccentPair, previous: AccentSnapshot, disk_enabled: Option<bool> },
    /// The record of a write that could not be rolled back.
    RollbackRecord { disk_enabled: Option<bool> },
    /// The snapshot an enable takes.
    EnableSnapshot { snapshot: AccentSnapshot, after: AccentAfter },
    /// The stale record an enable clears.
    ArmClear { after: AccentAfter },
    /// The flag an enable flips last.
    ArmFlag { after: AccentAfter },
}

} // verus!
