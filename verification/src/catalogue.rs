//! The downloaded images, oldest first, and how their record is restored.

use vstd::prelude::*;
use crate::paths::{folder_of, holds_path, parent};
use crate::wallpaper::CurrentWallpaper;
use std::path::PathBuf;

verus! {

/// One downloaded image with what is known about it.
#[derive(Clone, Debug, PartialEq, Eq)]
pub struct ImageEntry {
    pub urlbase: String,
    pub startdate: String,
    pub fullstartdate: String,
    pub title: String,
    pub copyright: String,
    pub copyrightlink: String,
    pub filename: PathBuf,
}

/// All downloaded images, oldest first.
#[derive(Clone, Debug, PartialEq, Eq)]
pub struct Catalogue {
    pub images: Vec<ImageEntry>,
}

impl Default for Catalogue {
    fn default() -> (catalogue: Catalogue)
        ensures
            catalogue.images@ == Seq::<ImageEntry>::empty(),
    {
        Catalogue { images: Vec::new() }
    }
}

/// The newest of the images.
pub open spec fn newest_of(images: Seq<ImageEntry>) -> Option<ImageEntry> {
    if images.len() == 0 {
        None
    } else {
        Some(images.last())
    }
}

/// The first image stored at `path`.
pub open spec fn stored_at(images: Seq<ImageEntry>, path: PathBuf) -> Option<ImageEntry>
    decreases images.len(),
{
    if images.len() == 0 {
        None
    } else if images[0].filename == path {
        Some(images[0])
    } else {
        stored_at(images.skip(1), path)
    }
}

/// What a successful refresh applies: the image stored at the fallback's path
/// where there is one, else the newest image.
pub open spec fn target_of(images: Seq<ImageEntry>, fallback: Option<PathBuf>) -> Option<
    ImageEntry,
> {
    match fallback {
        Some(path) => match stored_at(images, path) {
            Some(entry) => Some(entry),
            None => newest_of(images),
        },
        None => newest_of(images),
    }
}

/// The publication time of the newest image.
pub open spec fn newest_publication(images: Seq<ImageEntry>) -> Option<String> {
    match newest_of(images) {
        Some(entry) => Some(entry.fullstartdate),
        None => None,
    }
}

impl Catalogue {
    /// The newest image.
    pub fn newest(&self) -> (entry: Option<&ImageEntry>)
        ensures
            match entry {
                Some(found) => newest_of(self.images@) == Some(*found),
                None => newest_of(self.images@) is None,
            },
    {
        if self.images.len() == 0 {
            None
        } else {
            Some(&self.images[self.images.len() - 1])
        }
    }

    /// The first image stored at `path`.
    pub fn entry_for(&self, path: &PathBuf) -> (entry: Option<&ImageEntry>)
        ensures
            match entry {
                Some(found) => stored_at(self.images@, *path) == Some(*found),
                None => stored_at(self.images@, *path) is None,
            },
    {
        let mut at: usize = 0;
        assert(self.images@.skip(0) == self.images@);
        while at < self.images.len()
            invariant
                at <= self.images.len(),
                stored_at(self.images@, *path) == stored_at(self.images@.skip(at as int), *path),
            decreases self.images.len() - at,
        {
            assert(self.images@.skip(at as int)[0] == self.images@[at as int]);
            assert(self.images@.skip(at as int).skip(1) == self.images@.skip(at + 1));
            if self.images[at].filename == *path {
                return Some(&self.images[at]);
            }
            at = at + 1;
        }
        None
    }

    /// The publication time of the newest image.
    pub fn newest_fullstartdate(&self) -> (time: Option<String>)
        ensures
            time == newest_publication(self.images@),
    {
        match self.newest() {
            Some(entry) => Some(entry.fullstartdate.clone()),
            None => None,
        }
    }
}

/// What a successful refresh applies: the downloaded fallback's entry when
/// there is one and it survived the merge and the prune, else the newest
/// entry. A fallback without an entry degrades to the newest.
pub fn apply_target<'a>(catalogue: &'a Catalogue, fallback: Option<&PathBuf>) -> (target: Option<
    &'a ImageEntry,
>)
    ensures
        ({
            let wanted = match fallback {
                Some(path) => Some(*path),
                None => None,
            };
            match target {
                Some(entry) => target_of(catalogue.images@, wanted) == Some(*entry),
                None => target_of(catalogue.images@, wanted) is None,
            }
        }),
{
    match fallback {
        Some(path) => match catalogue.entry_for(path) {
            Some(entry) => Some(entry),
            None => catalogue.newest(),
        },
        None => catalogue.newest(),
    }
}

/// Where a restored catalogue came from.
#[derive(Clone, Copy, Debug, PartialEq, Eq, Structural)]
pub enum Provenance {
    /// Read from its record.
    Loaded,
    /// Put together from the files found in the folder: its entries carry no
    /// descriptions until a refresh fills them in.
    Rebuilt,
}

/// A restored catalogue.
#[derive(Clone, Debug, PartialEq, Eq)]
pub struct CatalogueRestore {
    pub catalogue: Catalogue,
    pub provenance: Provenance,
}

/// How a catalogue that was just read is to be used at startup.
#[derive(Clone, Debug, PartialEq, Eq)]
pub enum RoleRestore {
    /// Look for the files of its entries and go on with
    /// [`restore_catalogue`].
    Sift(CatalogueRestore),
    /// Use it as it is and leave every shared file alone.
    ReadOnly(CatalogueRestore),
}

/// Restores startup state according to the process's role: a follower may
/// read the catalogue, but it must not persist, prune or sweep anything.
pub fn restore_catalogue_for_role(loaded: CatalogueRestore, active_leader: bool) -> (restore:
    RoleRestore)
    ensures
        restore == (if active_leader {
            RoleRestore::Sift(loaded)
        } else {
            RoleRestore::ReadOnly(loaded)
        }),
{
    if active_leader {
        RoleRestore::Sift(loaded)
    } else {
        RoleRestore::ReadOnly(loaded)
    }
}

/// An entry of a catalogue that was just read, with what the shell found of
/// its file.
#[derive(Clone, Debug, PartialEq, Eq)]
pub struct FoundEntry {
    pub entry: ImageEntry,
    /// The entry's name is that of a file of the applet's.
    pub names_own_file: bool,
    /// The file exists.
    pub is_file: bool,
}

/// A leader's restored catalogue, and what its shared files need. No image
/// file is deleted at startup, neither for its age nor for anything else.
#[derive(Clone, Debug, PartialEq, Eq)]
pub struct StartupRestore {
    pub restore: CatalogueRestore,
    /// The record has to be written.
    pub save: bool,
    /// The thumbnail cache has to be swept down to the catalogue.
    pub sweep: bool,
}

/// Whether an entry that lies in `folder` outlives the startup: its file is
/// there, directly in the download folder and under a name of the applet's.
pub open spec fn outlives_in(
    found: FoundEntry,
    folder: Option<PathBuf>,
    images_dir: PathBuf,
) -> bool {
    folder == Some(images_dir) && found.names_own_file && found.is_file
}

/// Whether an entry outlives the startup, whatever its age.
pub open spec fn outlives_startup(found: FoundEntry, images_dir: PathBuf) -> bool {
    outlives_in(found, folder_of(found.entry.filename), images_dir)
}

/// Whether an entry that was found to lie in `folder` outlives the startup.
pub fn outlives(found: &FoundEntry, folder: &Option<PathBuf>, images_dir: &PathBuf) -> (kept: bool)
    ensures
        kept == outlives_in(*found, *folder, *images_dir),
{
    holds_path(folder, images_dir) && found.names_own_file && found.is_file
}

/// The entries that outlive the startup, in their order. A folder that is not
/// there, on a drive not yet mounted say, is no evidence against any entry.
pub open spec fn sifted(
    found: Seq<FoundEntry>,
    images_dir: PathBuf,
    folder_exists: bool,
) -> Seq<ImageEntry>
    decreases found.len(),
{
    if found.len() == 0 {
        Seq::empty()
    } else {
        let before = sifted(found.drop_last(), images_dir, folder_exists);
        if !folder_exists || outlives_startup(found.last(), images_dir) {
            before.push(found.last().entry)
        } else {
            before
        }
    }
}

/// Restores a leader's catalogue at startup: entries whose file vanished are
/// dropped, and so are those that somebody pointed elsewhere; the record is
/// written only if there were any. The thumbnail cache is swept in any case,
/// since what a killed process left in it no list of dropped entries can
/// name. The provenance is that of what was read.
pub fn restore_catalogue(
    found: Vec<FoundEntry>,
    provenance: Provenance,
    images_dir: &PathBuf,
    folder_exists: bool,
) -> (startup: StartupRestore)
    ensures
        startup.restore.catalogue.images@ == sifted(found@, *images_dir, folder_exists),
        startup.restore.provenance == provenance,
        startup.save == (sifted(found@, *images_dir, folder_exists).len() < found@.len()),
        startup.sweep,
{
    let count: usize = found.len();
    let mut images: Vec<ImageEntry> = Vec::new();
    for item in items: found
        invariant
            items.seq() == found@,
            images@ == sifted(found@.take(items.index()), *images_dir, folder_exists),
    {
        let ghost at = items.index();
        assert(found@.take(at + 1).drop_last() == found@.take(at));
        let folder: Option<PathBuf> = parent(&item.entry.filename);
        if !folder_exists || outlives(&item, &folder, images_dir) {
            images.push(item.entry);
        }
    }
    assert(found@.take(found@.len() as int) == found@);
    let save: bool = images.len() < count;
    StartupRestore {
        restore: CatalogueRestore { catalogue: Catalogue { images }, provenance },
        save,
        sweep: true,
    }
}

/// A read-only snapshot that refreshes a follower's popup.
#[derive(Clone, Debug, PartialEq, Eq)]
pub struct NonLeaderReload {
    pub catalogue: Catalogue,
    pub provenance: Provenance,
    pub live: CurrentWallpaper,
}

/// Puts a follower's snapshot together from what was read.
pub fn read_non_leader_reload(restore: CatalogueRestore, live: CurrentWallpaper) -> (reload:
    NonLeaderReload)
    ensures
        reload == (NonLeaderReload {
            catalogue: restore.catalogue,
            provenance: restore.provenance,
            live,
        }),
{
    NonLeaderReload { catalogue: restore.catalogue, provenance: restore.provenance, live }
}

/// A startup keeps, of a folder that is there, exactly the entries whose file
/// is there, inside the folder and under a name of the applet's, whatever
/// their age, and never more entries than were read. Of a folder that is not
/// there it keeps every entry. The record is written exactly if an entry was
/// dropped.
pub proof fn a_startup_keeps_what_is_there(
    found: Seq<FoundEntry>,
    images_dir: PathBuf,
    folder_exists: bool,
)
    ensures
        ({
            let kept = sifted(found, images_dir, folder_exists);
            &&& !folder_exists ==> kept == Seq::new(found.len(), |i: int| found[i].entry)
            &&& folder_exists ==> forall|k: int|
                0 <= k < kept.len() ==> exists|i: int|
                    0 <= i < found.len() && outlives_startup(#[trigger] found[i], images_dir)
                        && found[i].entry == #[trigger] kept[k]
            &&& forall|i: int|
                0 <= i < found.len() && outlives_startup(#[trigger] found[i], images_dir)
                    ==> kept.contains(found[i].entry)
            &&& kept.len() <= found.len()
            &&& kept.len() < found.len() <==> folder_exists && exists|i: int|
                0 <= i < found.len() && !outlives_startup(#[trigger] found[i], images_dir)
        }),
    decreases found.len(),
{
    if found.len() > 0 {
        let rest = found.drop_last();
        a_startup_keeps_what_is_there(rest, images_dir, folder_exists);
        let before = sifted(rest, images_dir, folder_exists);
        let kept = sifted(found, images_dir, folder_exists);
        assert(forall|i: int| 0 <= i < rest.len() ==> #[trigger] rest[i] == found[i]);
        assert forall|i: int|
            0 <= i < found.len() && outlives_startup(#[trigger] found[i], images_dir) implies
            kept.contains(found[i].entry) by {
            if i < rest.len() {
                assert(outlives_startup(rest[i], images_dir));
                let k = choose|k: int| 0 <= k < before.len() && before[k] == rest[i].entry;
                assert(kept[k] == found[i].entry);
            } else {
                assert(kept[kept.len() - 1] == found[i].entry);
            }
        }
        if folder_exists {
            assert forall|k: int| 0 <= k < kept.len() implies exists|i: int|
                0 <= i < found.len() && outlives_startup(#[trigger] found[i], images_dir)
                    && found[i].entry == #[trigger] kept[k] by {
                if k < before.len() {
                    assert(before[k] == kept[k]);
                    let i = choose|i: int|
                        0 <= i < rest.len() && outlives_startup(#[trigger] rest[i], images_dir)
                            && rest[i].entry == before[k];
                    assert(outlives_startup(found[i], images_dir));
                } else {
                    assert(outlives_startup(found[found.len() - 1], images_dir));
                }
            }
            if exists|i: int|
                0 <= i < found.len() && !outlives_startup(#[trigger] found[i], images_dir) {
                let i = choose|i: int|
                    0 <= i < found.len() && !outlives_startup(#[trigger] found[i], images_dir);
                if i < rest.len() {
                    assert(!outlives_startup(rest[i], images_dir));
                }
            }
            if exists|i: int|
                0 <= i < rest.len() && !outlives_startup(#[trigger] rest[i], images_dir) {
                let i = choose|i: int|
                    0 <= i < rest.len() && !outlives_startup(#[trigger] rest[i], images_dir);
                assert(!outlives_startup(found[i], images_dir));
            }
            assert(found.last() == found[found.len() - 1]);
        }
    }
}

/// A path under which an image is stored is the path of the image applied.
pub proof fn stored_image_has_its_path(images: Seq<ImageEntry>, path: PathBuf)
    ensures
        match stored_at(images, path) {
            Some(entry) => entry.filename == path && images.contains(entry),
            None => forall|i: int| 0 <= i < images.len() ==> images[i].filename != path,
        },
    decreases images.len(),
{
    if images.len() > 0 && images[0].filename != path {
        let rest = images.skip(1);
        stored_image_has_its_path(rest, path);
        assert(forall|i: int| 0 <= i < rest.len() ==> rest[i] == images[i + 1]);
        match stored_at(rest, path) {
            Some(entry) => {
                let i = choose|i: int| 0 <= i < rest.len() && rest[i] == entry;
                assert(images[i + 1] == entry);
            },
            None => {
                assert forall|i: int| 0 <= i < images.len() implies images[i].filename != path by {
                    if i > 0 {
                        assert(rest[i - 1] == images[i]);
                    }
                }
            },
        }
    }
}

/// There is something to apply exactly when the catalogue holds an image, and
/// it is always one of the catalogue's images. A fallback that the catalogue
/// holds is what gets applied.
pub proof fn target_is_a_held_image(images: Seq<ImageEntry>, fallback: Option<PathBuf>)
    ensures
        target_of(images, fallback) is None <==> images.len() == 0,
        target_of(images, fallback) matches Some(entry) ==> images.contains(entry),
        forall|i: int|
            0 <= i < images.len() && fallback == Some((#[trigger] images[i]).filename) ==> (
            target_of(images, fallback) matches Some(entry) && fallback == Some(entry.filename)),
{
    if let Some(path) = fallback {
        stored_image_has_its_path(images, path);
    }
    if images.len() > 0 {
        assert(images[images.len() - 1] == images.last());
    }
}

} // verus!
