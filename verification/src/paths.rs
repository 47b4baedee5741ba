//! File paths. The library keeps them as the standard library's `PathBuf`
//! from end to end and never converts one to text: all it asks of a path is
//! whether it is the same as another one, whether it is absolute, and which
//! folder it lies in.

use vstd::prelude::*;
use std::path::PathBuf;

verus! {

/// `std::path::PathBuf`, an owned path. Nothing inside it is looked at.
#[verifier::external_type_specification]
#[verifier::external_body]
pub struct ExPathBuf(std::path::PathBuf);

/// `<PathBuf as Clone>::clone`: the copy is the same path.
pub assume_specification[ <PathBuf as Clone>::clone ](path: &PathBuf) -> (copy: PathBuf)
    ensures
        copy == *path,
;

/// `<PathBuf as PartialEq>::eq`: the standard library's own comparison of two
/// paths, component by component, is what `==` on paths means in contracts.
/// A path is its components: two spellings that differ in, say, a doubled
/// separator are one path here, as they are one file.
pub assume_specification[ <PathBuf as PartialEq>::eq ](left: &PathBuf, right: &PathBuf) -> (same:
    bool)
    ensures
        same == (*left == *right),
;

/// Whether a path is absolute, as [`is_absolute`] finds out.
pub uninterp spec fn absolute_path(path: PathBuf) -> bool;

/// `std::path::Path::is_absolute`: whether the path says where its file is
/// without regard to any current directory. The answer depends on the path's
/// components alone; on Unix, where the applet runs, it is whether the first
/// one is the root, so that neither a relative path nor one that begins with
/// a dash is absolute. Contracts speak of the answer by name.
#[verifier::external_body]
pub(crate) fn is_absolute(path: &PathBuf) -> (absolute: bool)
    ensures
        absolute == absolute_path(*path),
{
    path.is_absolute()
}

/// The folder a path lies in, as [`parent`] finds out.
pub uninterp spec fn folder_of(path: PathBuf) -> Option<PathBuf>;

/// `std::path::Path::parent`: the path without its final component, or nothing
/// for a path that has none, such as the root. The answer depends on the
/// path's components alone. Contracts speak of it by name.
#[verifier::external_body]
pub(crate) fn parent(path: &PathBuf) -> (folder: Option<PathBuf>)
    ensures
        folder == folder_of(*path),
{
    path.parent().map(|folder| folder.to_path_buf())
}

/// Whether `candidate` holds exactly `path`.
pub fn holds_path(candidate: &Option<PathBuf>, path: &PathBuf) -> (same: bool)
    ensures
        same == (*candidate == Some(*path)),
{
    match candidate {
        Some(held) => *held == *path,
        None => false,
    }
}

/// The path `held` names, as a sequence of at most one.
pub open spec fn as_list(held: Option<PathBuf>) -> Seq<PathBuf> {
    match held {
        Some(path) => seq![path],
        None => Seq::empty(),
    }
}

/// The paths the two file-deleting passes exempt: the applied wallpaper, then
/// the downloaded fallback that waits for its apply. One list for both passes.
pub fn protected_paths(current: &Option<PathBuf>, fallback: &Option<PathBuf>) -> (paths: Vec<
    PathBuf,
>)
    ensures
        paths@ == as_list(*current) + as_list(*fallback),
{
    let mut paths: Vec<PathBuf> = Vec::new();
    if let Some(path) = current {
        paths.push(path.clone());
    }
    if let Some(path) = fallback {
        paths.push(path.clone());
    }
    paths
}

} // verus!
