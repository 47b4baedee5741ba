//! What the desktop displays, as far as it can be known, and the one-shot
//! state that owes a fresh installation its first wallpaper.

use vstd::prelude::*;
use std::path::PathBuf;

verus! {

/// A file the desktop displays.
#[derive(Clone, Debug, PartialEq, Eq)]
pub struct LiveFile {
    pub path: PathBuf,
    /// The file is one of the applet's own downloads.
    pub ours: bool,
}

/// What the desktop background is set to.
#[derive(Clone, Debug, PartialEq, Eq)]
pub enum CurrentWallpaper {
    /// One file on every output.
    File(LiveFile),
    /// Knowably no file, such as a plain colour.
    NoFile,
    /// Not knowable: one wallpaper per output, or an unreadable setting.
    Unknown,
}

impl LiveFile {
    /// An exact copy.
    pub fn copy(&self) -> (copy: LiveFile)
        ensures
            copy == *self,
    {
        LiveFile { path: self.path.clone(), ours: self.ours }
    }
}

impl CurrentWallpaper {
    /// The displayed file, in the one state that has one.
    pub open spec fn file(self) -> Option<LiveFile> {
        match self {
            CurrentWallpaper::File(live) => Some(live),
            _ => None,
        }
    }

    /// The displayed file; `None` for every state without one.
    pub fn into_file(self) -> (file: Option<LiveFile>)
        ensures
            file == self.file(),
    {
        match self {
            CurrentWallpaper::File(live) => Some(live),
            CurrentWallpaper::NoFile => None,
            CurrentWallpaper::Unknown => None,
        }
    }

    /// An exact copy.
    pub fn copy(&self) -> (copy: CurrentWallpaper)
        ensures
            copy == *self,
    {
        match self {
            CurrentWallpaper::File(live) => CurrentWallpaper::File(live.copy()),
            CurrentWallpaper::NoFile => CurrentWallpaper::NoFile,
            CurrentWallpaper::Unknown => CurrentWallpaper::Unknown,
        }
    }
}

/// The path of an optional live file.
pub open spec fn live_path(live: Option<LiveFile>) -> Option<PathBuf> {
    match live {
        Some(file) => Some(file.path),
        None => None,
    }
}

/// A copy of the path of an optional live file.
pub fn path_of(live: &Option<LiveFile>) -> (path: Option<PathBuf>)
    ensures
        path == live_path(*live),
{
    match live {
        Some(file) => Some(file.path.clone()),
        None => None,
    }
}

/// Whether a live file is one of the applet's own.
pub open spec fn live_is_ours(live: Option<LiveFile>) -> bool {
    match live {
        Some(file) => file.ours,
        None => false,
    }
}

/// Whether a live file is one of the applet's own.
pub fn is_ours(live: &Option<LiveFile>) -> (ours: bool)
    ensures
        ours == live_is_ours(*live),
{
    match live {
        Some(file) => file.ours,
        None => false,
    }
}

/// What to take for the applied file after `live` was read: the displayed
/// file, nothing when knowably nothing is displayed, and the last known file
/// while the display is unknowable.
pub open spec fn synced(live: CurrentWallpaper, current: Option<PathBuf>) -> Option<PathBuf> {
    match live {
        CurrentWallpaper::File(file) => Some(file.path),
        CurrentWallpaper::NoFile => None,
        CurrentWallpaper::Unknown => current,
    }
}

/// What to take for the applied file after `live` was read.
pub fn synced_current(live: &CurrentWallpaper, current: Option<PathBuf>) -> (known: Option<PathBuf>)
    ensures
        known == synced(*live, current),
{
    match live {
        CurrentWallpaper::File(file) => Some(file.path.clone()),
        CurrentWallpaper::NoFile => None,
        CurrentWallpaper::Unknown => current,
    }
}

/// The retention a prune honours: nothing is deleted for its age while the
/// displayed file is unknowable.
pub open spec fn effective_retention(live: CurrentWallpaper, days: u16) -> u16 {
    if live is Unknown {
        0
    } else {
        days
    }
}

/// The retention a prune honours; `0` deletes nothing for its age.
pub fn prune_retention(live: &CurrentWallpaper, days: u16) -> (effective: u16)
    ensures
        effective == effective_retention(*live, days),
{
    match live {
        CurrentWallpaper::Unknown => 0,
        CurrentWallpaper::File(_) => days,
        CurrentWallpaper::NoFile => days,
    }
}

/// Whether a fetched image may replace what is displayed.
pub open spec fn auto_applies(cold_start: bool, live_is_ours: bool) -> bool {
    cold_start || live_is_ours
}

/// Whether a fetched image may replace what is displayed: always on a cold
/// start, otherwise only over a file of the applet's own.
pub fn should_auto_apply(cold_start: bool, live_is_ours: bool) -> (apply: bool)
    ensures
        apply == auto_applies(cold_start, live_is_ours),
{
    cold_start || live_is_ours
}

/// The one-shot cold-start auto-apply: a fresh installation owes the user one
/// applied wallpaper, even over whatever foreign default is displayed.
#[derive(Clone, Debug, PartialEq, Eq)]
pub enum ColdStart {
    /// The catalogue was empty at startup and no apply was tried yet: the
    /// first successful fetch applies unconditionally.
    Pending,
    /// The cold-start apply failed while this wallpaper, if any, was
    /// displayed. The retry fires only while the display is unchanged, so
    /// that a wallpaper picked meanwhile wins.
    RetryOver(Option<PathBuf>),
    /// Spent: only the rule for files of ours applies from here on.
    Done,
}

impl ColdStart {
    /// Whether the cold start may apply over `live`.
    pub open spec fn over(self, live: Option<PathBuf>) -> bool {
        match self {
            ColdStart::Pending => true,
            ColdStart::RetryOver(at_failure) => live is None || live == at_failure,
            ColdStart::Done => false,
        }
    }

    /// Whether the cold-start branch may bypass the rule for files of ours
    /// and auto-apply over `live`, the wallpaper displayed right now. Over a
    /// display that shows no knowable file it always may.
    pub fn applies_over(&self, live: Option<&PathBuf>) -> (applies: bool)
        ensures
            applies == self.over(match live {
                Some(path) => Some(*path),
                None => None,
            }),
    {
        match self {
            ColdStart::Pending => true,
            ColdStart::RetryOver(at_failure) => match live {
                None => true,
                Some(path) => match at_failure {
                    Some(shown) => *path == *shown,
                    None => false,
                },
            },
            ColdStart::Done => false,
        }
    }

    /// Whether the state is spent.
    pub fn is_done(&self) -> (done: bool)
        ensures
            done == (self is Done),
    {
        match self {
            ColdStart::Done => true,
            _ => false,
        }
    }
}

/// Once spent, the cold start never replaces anything.
pub proof fn spent_cold_start_never_applies(live: Option<PathBuf>)
    ensures
        !ColdStart::Done.over(live),
{
}

/// A retry yields to a wallpaper that was picked after the failed apply, and
/// still fires over the one that was displayed when it failed.
pub proof fn retry_yields_to_a_new_choice(at_failure: Option<PathBuf>, choice: PathBuf)
    ensures
        ColdStart::RetryOver(at_failure).over(at_failure),
        at_failure != Some(choice) ==> !ColdStart::RetryOver(at_failure).over(Some(choice)),
{
}

} // verus!
