//! One fetch from the archive: which images it downloads, which it repairs
//! without a download, and what it hands back.

use vstd::prelude::*;
use crate::catalogue::ImageEntry;
use std::path::PathBuf;

verus! {

/// An image as the archive describes it.
#[derive(Clone, Debug, PartialEq, Eq)]
pub struct BingImage {
    pub startdate: String,
    pub fullstartdate: String,
    pub urlbase: String,
    pub copyright: String,
    pub copyrightlink: String,
    /// Whether the image may be used as a wallpaper, where the archive says.
    pub wp: Option<bool>,
}

/// An image and its position in the archive; position zero is the newest.
#[derive(Clone, Debug, PartialEq, Eq)]
pub struct ArchiveImage {
    pub position: usize,
    pub image: BingImage,
}

/// A parsed archive response.
#[derive(Clone, Debug, PartialEq, Eq)]
pub struct Archive {
    /// The images marked usable, newest first.
    pub eligible: Vec<ArchiveImage>,
    /// URL bases of the images explicitly marked unusable.
    pub ineligible: Vec<String>,
    /// The newest publication time, eligible or not.
    pub anchor: String,
}

/// Which of the archive's positions a refresh downloads.
#[derive(Clone, Copy, Debug, PartialEq, Eq, Structural)]
pub struct Downloads {
    /// Newest archive positions considered.
    pub horizon: u8,
    /// Whether an empty horizon may fall back to the newest eligible image
    /// beyond it.
    pub fallback: bool,
}

/// The eligible images one refresh downloads. At most one of the two halves
/// holds anything.
#[derive(Debug)]
pub struct Selection<'a> {
    pub in_window: Vec<&'a ArchiveImage>,
    pub fallback: Option<&'a ArchiveImage>,
}

/// Why a refresh failed.
#[derive(Clone, Debug, PartialEq, Eq)]
pub enum RefreshError {
    /// Transport, status or parse trouble.
    Network(String),
    /// A download could not be stored.
    Disk(String),
}

/// A refresh failure with its message as a sequence of characters.
#[verifier::ext_equal]
pub enum RefreshErrorView {
    Network(Seq<char>),
    Disk(Seq<char>),
}

impl View for RefreshError {
    type V = RefreshErrorView;

    open spec fn view(&self) -> RefreshErrorView {
        match self {
            RefreshError::Network(detail) => RefreshErrorView::Network(detail@),
            RefreshError::Disk(detail) => RefreshErrorView::Disk(detail@),
        }
    }
}

impl RefreshError {
    /// What a failed fetch is blamed on.
    pub open spec fn blamed(detail: String, is_local: bool) -> RefreshError {
        if is_local {
            RefreshError::Disk(detail)
        } else {
            RefreshError::Network(detail)
        }
    }

    /// Classifies a failed fetch: local trouble is the disk's, everything
    /// else the network's.
    pub fn from_fetch(detail: String, is_local: bool) -> (error: RefreshError)
        ensures
            error == RefreshError::blamed(detail, is_local),
    {
        if is_local {
            RefreshError::Disk(detail)
        } else {
            RefreshError::Network(detail)
        }
    }

    /// The message of the failure.
    pub fn message(&self) -> (detail: String)
        ensures
            detail@ == (match self@ {
                RefreshErrorView::Network(text) => text,
                RefreshErrorView::Disk(text) => text,
            }),
    {
        match self {
            RefreshError::Network(detail) => detail.clone(),
            RefreshError::Disk(detail) => detail.clone(),
        }
    }
}

/// What one successful fetch hands back.
#[derive(Clone, Debug, PartialEq, Eq)]
pub struct RefreshBatch {
    /// The entries it downloaded, then those it repaired.
    pub fetched: Vec<ImageEntry>,
    /// URL bases the archive explicitly marks unusable.
    pub ineligible: Vec<String>,
    /// The response's newest publication time, eligible or not.
    pub anchor: String,
    /// The one out-of-retention image it downloaded, if it did.
    pub fallback: Option<PathBuf>,
    /// It downloaded something and left the thumbnails to a later pass.
    pub thumbnails_deferred: bool,
}

impl Default for RefreshBatch {
    fn default() -> (batch: RefreshBatch)
        ensures
            batch.fetched@ == Seq::<ImageEntry>::empty(),
            batch.ineligible@ == Seq::<String>::empty(),
            batch.anchor@ == Seq::<char>::empty(),
            batch.fallback is None,
            !batch.thumbnails_deferred,
    {
        RefreshBatch {
            fetched: Vec::new(),
            ineligible: Vec::new(),
            anchor: String::new(),
            fallback: None,
            thumbnails_deferred: false,
        }
    }
}

/// The places, in order, of the first `count` eligible images that lie
/// within the horizon.
pub open spec fn window_places(eligible: Seq<ArchiveImage>, horizon: u8, count: nat) -> Seq<int>
    decreases count,
{
    if count == 0 {
        Seq::empty()
    } else {
        let before = window_places(eligible, horizon, (count - 1) as nat);
        if eligible[count - 1].position < horizon {
            before.push(count - 1)
        } else {
            before
        }
    }
}

/// The places, in order, of all eligible images within the horizon.
pub open spec fn in_horizon(eligible: Seq<ArchiveImage>, horizon: u8) -> Seq<int> {
    window_places(eligible, horizon, eligible.len())
}

/// Whether `place` is the first eligible image beyond the horizon.
pub open spec fn first_beyond(eligible: Seq<ArchiveImage>, horizon: u8, place: int) -> bool {
    &&& 0 <= place < eligible.len()
    &&& eligible[place].position >= horizon
    &&& forall|i: int| 0 <= i < place ==> (#[trigger] eligible[i]).position < horizon
}

/// Whether `fallback` is the right fallback: the newest eligible image beyond
/// a horizon that holds none, where one is permitted and exists.
pub open spec fn is_fallback(
    eligible: Seq<ArchiveImage>,
    downloads: Downloads,
    fallback: Option<int>,
) -> bool {
    let wanted = downloads.fallback && in_horizon(eligible, downloads.horizon).len() == 0;
    match fallback {
        Some(place) => wanted && first_beyond(eligible, downloads.horizon, place),
        None => !wanted || forall|i: int|
            0 <= i < eligible.len() ==> (#[trigger] eligible[i]).position < downloads.horizon,
    }
}

/// Every listed place lies within the horizon, and every image within the
/// horizon is listed.
pub proof fn window_lists_the_horizon(eligible: Seq<ArchiveImage>, horizon: u8, count: nat)
    requires
        count <= eligible.len(),
    ensures
        window_places(eligible, horizon, count).len() <= count,
        forall|k: int|
            0 <= k < window_places(eligible, horizon, count).len() ==> {
                let place = #[trigger] window_places(eligible, horizon, count)[k];
                0 <= place < count && eligible[place].position < horizon
            },
        forall|i: int|
            0 <= i < count && (#[trigger] eligible[i]).position < horizon ==> window_places(
                eligible,
                horizon,
                count,
            ).contains(i),
    decreases count,
{
    if count > 0 {
        let last = (count - 1) as nat;
        window_lists_the_horizon(eligible, horizon, last);
        let before = window_places(eligible, horizon, last);
        let all = window_places(eligible, horizon, count);
        assert forall|i: int|
            0 <= i < count && (#[trigger] eligible[i]).position < horizon implies all.contains(i) by {
            if i < last {
                assert(before.contains(i));
                let k = choose|k: int| 0 <= k < before.len() && before[k] == i;
                assert(all[k] == i);
            } else {
                assert(all[all.len() - 1] == i);
            }
        }
    }
}

/// What a selection picks is mutually exclusive: a horizon that holds
/// anything never falls back, and the one fallback is the newest eligible
/// image of all.
pub proof fn fallback_only_for_an_empty_horizon(
    eligible: Seq<ArchiveImage>,
    downloads: Downloads,
    place: int,
)
    requires
        is_fallback(eligible, downloads, Some(place)),
    ensures
        in_horizon(eligible, downloads.horizon).len() == 0,
        downloads.fallback,
        place == 0,
        forall|i: int|
            0 <= i < eligible.len() ==> (#[trigger] eligible[i]).position >= downloads.horizon,
{
    window_lists_the_horizon(eligible, downloads.horizon, eligible.len());
    let listed = in_horizon(eligible, downloads.horizon);
    assert forall|i: int| 0 <= i < eligible.len() implies (#[trigger] eligible[i]).position
        >= downloads.horizon by {
        if eligible[i].position < downloads.horizon {
            assert(listed.contains(i));
        }
    }
    if place > 0 {
        assert(eligible[0].position < downloads.horizon);
    }
}

/// The places of the images one refresh downloads.
pub fn select_places(eligible: &Vec<ArchiveImage>, downloads: Downloads) -> (places: (
    Vec<usize>,
    Option<usize>,
))
    ensures
        places.0@.len() == in_horizon(eligible@, downloads.horizon).len(),
        forall|k: int|
            0 <= k < places.0@.len() ==> #[trigger] places.0@[k] == in_horizon(
                eligible@,
                downloads.horizon,
            )[k],
        is_fallback(
            eligible@,
            downloads,
            match places.1 {
                Some(place) => Some(place as int),
                None => None,
            },
        ),
{
    let mut in_window: Vec<usize> = Vec::new();
    let mut at: usize = 0;
    let horizon: usize = downloads.horizon as usize;
    while at < eligible.len()
        invariant
            at <= eligible.len(),
            horizon == downloads.horizon,
            in_window@.len() == window_places(eligible@, downloads.horizon, at as nat).len(),
            forall|k: int|
                0 <= k < in_window@.len() ==> #[trigger] in_window@[k] == window_places(
                    eligible@,
                    downloads.horizon,
                    at as nat,
                )[k],
        decreases eligible.len() - at,
    {
        if eligible[at].position < horizon {
            in_window.push(at);
        }
        at = at + 1;
    }
    if in_window.len() > 0 || !downloads.fallback {
        return (in_window, None);
    }
    let mut place: usize = 0;
    while place < eligible.len()
        invariant
            place <= eligible.len(),
            horizon == downloads.horizon,
            forall|i: int| 0 <= i < place ==> (#[trigger] eligible@[i]).position < horizon,
            in_window@.len() == 0,
            in_window@.len() == in_horizon(eligible@, downloads.horizon).len(),
            downloads.fallback,
        decreases eligible.len() - place,
    {
        if eligible[place].position >= horizon {
            return (in_window, Some(place));
        }
        place = place + 1;
    }
    (in_window, None)
}

/// Picks what one refresh downloads: everything eligible inside the horizon,
/// or, when the horizon holds nothing eligible and a fallback is permitted,
/// just the newest eligible image beyond it. Never both, and never any other
/// image out of retention.
pub fn select_downloads(eligible: &Vec<ArchiveImage>, downloads: Downloads) -> (selection:
    Selection<'_>)
    ensures
        selection.in_window@.len() == in_horizon(eligible@, downloads.horizon).len(),
        forall|k: int|
            0 <= k < selection.in_window@.len() ==> *(#[trigger] selection.in_window@[k])
                == eligible@[in_horizon(eligible@, downloads.horizon)[k]],
        match selection.fallback {
            Some(image) => exists|place: int|
                is_fallback(eligible@, downloads, Some(place)) && *image == eligible@[place],
            None => is_fallback(eligible@, downloads, None),
        },
{
    let (places, fallback_place) = select_places(eligible, downloads);
    proof {
        window_lists_the_horizon(eligible@, downloads.horizon, eligible@.len());
    }
    let mut in_window: Vec<&ArchiveImage> = Vec::new();
    let mut at: usize = 0;
    while at < places.len()
        invariant
            at <= places.len(),
            in_window@.len() == at,
            places@.len() == in_horizon(eligible@, downloads.horizon).len(),
            forall|k: int|
                0 <= k < places@.len() ==> #[trigger] places@[k] == in_horizon(
                    eligible@,
                    downloads.horizon,
                )[k],
            forall|k: int|
                0 <= k < places@.len() ==> #[trigger] in_horizon(eligible@, downloads.horizon)[k]
                    < eligible@.len(),
            forall|k: int|
                0 <= k < at ==> *(#[trigger] in_window@[k]) == eligible@[in_horizon(
                    eligible@,
                    downloads.horizon,
                )[k]],
        decreases places.len() - at,
    {
        assert(places@[at as int] == in_horizon(eligible@, downloads.horizon)[at as int]);
        in_window.push(&eligible[places[at]]);
        at = at + 1;
    }
    let fallback: Option<&ArchiveImage> = match fallback_place {
        Some(place) => {
            assert(is_fallback(eligible@, downloads, Some(place as int)));
            Some(&eligible[place])
        },
        None => None,
    };
    Selection { in_window, fallback }
}

/// What the catalogue holds for an image, as a file that saves a download or
/// as one that does not.
pub open spec fn usable(existing: Option<PathBuf>, is_jpeg: bool) -> Result<
    PathBuf,
    Option<PathBuf>,
> {
    match existing {
        Some(path) => if is_jpeg {
            Ok(path)
        } else {
            Err(Some(path))
        },
        None => Err(None),
    }
}

/// What is to be unlinked once a replacement landed.
pub open spec fn replaced(existing: Option<PathBuf>, fresh: PathBuf) -> Option<PathBuf> {
    if existing == Some(fresh) {
        None
    } else {
        existing
    }
}

/// The file the catalogue already holds for an image, provided it passes the
/// test a fresh download must pass: the one predicate for "no download
/// needed". `Err` carries what the catalogue claims instead, which is
/// unlinked once its replacement has landed.
pub fn usable_existing_file(existing: Option<PathBuf>, is_jpeg: bool) -> (found: Result<
    PathBuf,
    Option<PathBuf>,
>)
    ensures
        found == usable(existing, is_jpeg),
{
    match existing {
        Some(path) => if is_jpeg {
            Ok(path)
        } else {
            Err(Some(path))
        },
        None => Err(None),
    }
}

/// The file to unlink once its replacement landed at `fresh`: the unusable
/// one the catalogue claimed, unless the download took its very place.
pub fn replaced_file(existing: Option<PathBuf>, fresh: &PathBuf) -> (unlink: Option<PathBuf>)
    ensures
        unlink == replaced(existing, *fresh),
{
    match existing {
        Some(path) => if path == *fresh {
            None
        } else {
            Some(path)
        },
        None => None,
    }
}

/// Whether `chosen` are the places of the images one refresh downloads, in
/// order: the images within the horizon, or just the one fallback.
pub open spec fn is_selection(
    eligible: Seq<ArchiveImage>,
    downloads: Downloads,
    chosen: Seq<usize>,
    fallback: bool,
) -> bool {
    &&& fallback <==> exists|place: int| is_fallback(eligible, downloads, Some(place))
    &&& fallback ==> chosen.len() == 1 && is_fallback(eligible, downloads, Some(chosen[0] as int))
    &&& !fallback ==> {
        &&& chosen.len() == in_horizon(eligible, downloads.horizon).len()
        &&& forall|k: int|
            0 <= k < chosen.len() ==> #[trigger] chosen[k] == in_horizon(
                eligible,
                downloads.horizon,
            )[k]
    }
}

/// What a fetch did with a listed image beyond its downloads.
#[derive(Clone, Copy, Debug, PartialEq, Eq, Structural)]
pub enum Listed {
    /// The fetch resolved the image itself.
    Fetched,
    /// No usable file of the image is on disk.
    Missing,
    /// A usable file is on disk: its entry is handed back anew.
    Repaired,
}

/// The places of the images that were repaired, in the archive's order.
pub open spec fn repaired_places(listed: Seq<Listed>) -> Seq<int>
    decreases listed.len(),
{
    if listed.len() == 0 {
        Seq::empty()
    } else {
        let before = repaired_places(listed.drop_last());
        if listed.last() is Repaired {
            before.push(listed.len() - 1)
        } else {
            before
        }
    }
}

/// A fetch in progress, after the archive was read. The shell resolves each
/// chosen image to a file and accepts it, then says of every remaining listed
/// image whether a usable file of it is on disk, and finishes.
#[derive(Clone, Debug)]
pub struct FetchRun {
    pub archive: Archive,
    pub downloads: Downloads,
    /// The places of the images to resolve, in order.
    pub chosen: Vec<usize>,
    /// The only chosen image is the fallback.
    pub fallback: bool,
    /// No thumbnails are written: a pass owns the cache.
    pub deferred: bool,
    /// The entries of the chosen images resolved so far.
    pub fetched: Vec<ImageEntry>,
    /// What became of the listed images considered for repair so far.
    pub listed: Vec<Listed>,
    /// The entries of the repaired images.
    pub hydrated: Vec<ImageEntry>,
}

/// Whether one of `entries` is the image `urlbase`.
pub open spec fn names_image(entries: Seq<ImageEntry>, urlbase: Seq<char>) -> bool {
    exists|i: int| 0 <= i < entries.len() && (#[trigger] entries[i]).urlbase@ == urlbase
}

/// Whether one of `entries` is stored at `path`.
pub open spec fn holds_file(entries: Seq<ImageEntry>, path: PathBuf) -> bool {
    exists|i: int| 0 <= i < entries.len() && (#[trigger] entries[i]).filename == path
}

impl FetchRun {
    /// The image the archive lists at `place`.
    pub open spec fn urlbase_at(&self, place: int) -> Seq<char> {
        self.archive.eligible@[place].image.urlbase@
    }

    /// What every fetch in progress keeps.
    pub open spec fn well_formed(&self) -> bool {
        &&& is_selection(self.archive.eligible@, self.downloads, self.chosen@, self.fallback)
        &&& forall|k: int|
            0 <= k < self.chosen@.len() ==> #[trigger] self.chosen@[k]
                < self.archive.eligible@.len()
        &&& self.fetched@.len() <= self.chosen@.len()
        &&& forall|k: int|
            0 <= k < self.fetched@.len() ==> (#[trigger] self.fetched@[k]).urlbase@
                == self.urlbase_at(self.chosen@[k] as int)
        &&& self.listed@.len() <= self.archive.eligible@.len()
        &&& self.listed@.len() > 0 ==> self.resolved()
        &&& forall|i: int|
            0 <= i < self.listed@.len() ==> (#[trigger] self.listed@[i] is Fetched <==> names_image(
                self.fetched@,
                self.urlbase_at(i),
            ))
        &&& self.hydrated@.len() == repaired_places(self.listed@).len()
        &&& forall|k: int|
            0 <= k < self.hydrated@.len() ==> (#[trigger] self.hydrated@[k]).urlbase@
                == self.urlbase_at(repaired_places(self.listed@)[k])
    }

    /// Every chosen image was resolved.
    pub open spec fn resolved(&self) -> bool {
        self.fetched@.len() == self.chosen@.len()
    }

    /// The next listed image was not fetched, and is to be looked for on disk.
    pub open spec fn awaits_repair(&self) -> bool {
        &&& self.resolved()
        &&& self.listed@.len() < self.archive.eligible@.len()
        &&& !names_image(self.fetched@, self.urlbase_at(self.listed@.len() as int))
    }

    /// Every chosen image was resolved, and every listed one considered.
    pub open spec fn finished(&self) -> bool {
        self.resolved() && self.listed@.len() == self.archive.eligible@.len()
    }

    /// What the fetch hands back: the resolved images, then the repaired
    /// ones.
    pub open spec fn entries(&self) -> Seq<ImageEntry> {
        self.fetched@ + self.hydrated@
    }

    /// The image beyond the retention that was downloaded to be applied.
    pub open spec fn fallback_path(&self) -> Option<PathBuf> {
        if self.fallback {
            Some(self.fetched@.last().filename)
        } else {
            None
        }
    }

    /// Thumbnails of resolved images are left to a later pass.
    pub open spec fn owes_thumbnails(&self) -> bool {
        self.deferred && self.fetched@.len() > 0
    }

    /// Starts a fetch over the archive that was read.
    pub fn begin(archive: Archive, downloads: Downloads, deferred: bool) -> (run: FetchRun)
        ensures
            run.well_formed(),
            run.archive == archive,
            run.downloads == downloads,
            run.deferred == deferred,
            run.fetched@.len() == 0,
            run.listed@.len() == 0,
            run.hydrated@.len() == 0,
    {
        let (mut chosen, fallback_place) = select_places(&archive.eligible, downloads);
        proof {
            window_lists_the_horizon(
                archive.eligible@,
                downloads.horizon,
                archive.eligible@.len(),
            );
        }
        let ghost places = in_horizon(archive.eligible@, downloads.horizon);
        assert forall|k: int| 0 <= k < chosen@.len() implies #[trigger] chosen@[k]
            < archive.eligible@.len() by {
            assert(chosen@[k] == places[k]);
        }
        let fallback: bool = match fallback_place {
            Some(place) => {
                assert(is_fallback(archive.eligible@, downloads, Some(place as int)));
                chosen.push(place);
                true
            },
            None => {
                assert forall|place: int| !is_fallback(
                    archive.eligible@,
                    downloads,
                    Some(place),
                ) by {
                    if is_fallback(archive.eligible@, downloads, Some(place)) {
                        assert(archive.eligible@[place].position >= downloads.horizon);
                    }
                }
                false
            },
        };
        FetchRun {
            archive,
            downloads,
            chosen,
            fallback,
            deferred,
            fetched: Vec::new(),
            listed: Vec::new(),
            hydrated: Vec::new(),
        }
    }

    /// The place of the next image to resolve, while there is one.
    pub fn next_fetch(&self) -> (place: Option<usize>)
        requires
            self.well_formed(),
        ensures
            place == (if self.resolved() {
                None
            } else {
                Some(self.chosen@[self.fetched@.len() as int])
            }),
            place matches Some(at) ==> at < self.archive.eligible@.len(),
    {
        if self.fetched.len() < self.chosen.len() {
            Some(self.chosen[self.fetched.len()])
        } else {
            None
        }
    }

    /// Whether an image that was just resolved gets its thumbnail at once.
    /// While a pass owns the cache, none does.
    pub fn writes_thumbnails(&self) -> (writes: bool)
        ensures
            writes == !self.deferred,
    {
        !self.deferred
    }

    /// Accepts the entry of the image that was just resolved.
    pub fn accept(&mut self, entry: ImageEntry)
        requires
            old(self).well_formed(),
            !old(self).resolved(),
            entry.urlbase@ == old(self).urlbase_at(
                old(self).chosen@[old(self).fetched@.len() as int] as int,
            ),
        ensures
            final(self).well_formed(),
            final(self).fetched@ == old(self).fetched@.push(entry),
            final(self).archive == old(self).archive,
            final(self).downloads == old(self).downloads,
            final(self).chosen == old(self).chosen,
            final(self).fallback == old(self).fallback,
            final(self).deferred == old(self).deferred,
            final(self).listed == old(self).listed,
            final(self).hydrated == old(self).hydrated,
    {
        self.fetched.push(entry);
    }

    /// Whether this fetch resolved an image to `path`, so that the backfill
    /// leaves it alone.
    pub fn handled(&self, path: &PathBuf) -> (handled: bool)
        ensures
            handled == holds_file(self.fetched@, *path),
    {
        let mut at: usize = 0;
        while at < self.fetched.len()
            invariant
                at <= self.fetched.len(),
                forall|i: int| 0 <= i < at ==> (#[trigger] self.fetched@[i]).filename != *path,
            decreases self.fetched.len() - at,
        {
            if self.fetched[at].filename == *path {
                return true;
            }
            at = at + 1;
        }
        false
    }

    /// Whether this fetch resolved the image `urlbase`.
    pub fn fetched_image(&self, urlbase: &String) -> (named: bool)
        ensures
            named == names_image(self.fetched@, urlbase@),
    {
        let mut at: usize = 0;
        while at < self.fetched.len()
            invariant
                at <= self.fetched.len(),
                forall|i: int|
                    0 <= i < at ==> (#[trigger] self.fetched@[i]).urlbase@ != urlbase@,
            decreases self.fetched.len() - at,
        {
            if self.fetched[at].urlbase == *urlbase {
                return true;
            }
            at = at + 1;
        }
        false
    }

    /// The place of the next listed image that was not fetched: a candidate
    /// for repair, if a usable file of it is on disk. The images before it
    /// are noted as fetched.
    pub fn next_repair(&mut self) -> (place: Option<usize>)
        requires
            old(self).well_formed(),
            old(self).resolved(),
        ensures
            final(self).well_formed(),
            final(self).archive == old(self).archive,
            final(self).downloads == old(self).downloads,
            final(self).chosen == old(self).chosen,
            final(self).fallback == old(self).fallback,
            final(self).deferred == old(self).deferred,
            final(self).fetched == old(self).fetched,
            final(self).hydrated == old(self).hydrated,
            final(self).listed@.len() >= old(self).listed@.len(),
            final(self).listed@.subrange(0, old(self).listed@.len() as int) == old(self).listed@,
            forall|i: int|
                old(self).listed@.len() <= i < final(self).listed@.len()
                    ==> #[trigger] final(self).listed@[i] is Fetched,
            match place {
                Some(at) => final(self).awaits_repair() && at == final(self).listed@.len(),
                None => final(self).finished(),
            },
    {
        while self.listed.len() < self.archive.eligible.len()
            invariant
                self.well_formed(),
                self.resolved(),
                self.archive == old(self).archive,
                self.downloads == old(self).downloads,
                self.chosen == old(self).chosen,
                self.fallback == old(self).fallback,
                self.deferred == old(self).deferred,
                self.fetched == old(self).fetched,
                self.hydrated == old(self).hydrated,
                self.listed@.len() >= old(self).listed@.len(),
                self.listed@.subrange(0, old(self).listed@.len() as int) == old(self).listed@,
                forall|i: int|
                    old(self).listed@.len() <= i < self.listed@.len()
                        ==> #[trigger] self.listed@[i] is Fetched,
            decreases self.archive.eligible.len() - self.listed.len(),
        {
            let at: usize = self.listed.len();
            if !self.fetched_image(&self.archive.eligible[at].image.urlbase) {
                return Some(at);
            }
            let ghost before = self.listed@;
            self.listed.push(Listed::Fetched);
            assert(self.listed@.drop_last() == before);
        }
        None
    }

    /// Takes over what was found of the image that [`Self::next_repair`]
    /// named: the entry of its usable file, or nothing.
    pub fn repair(&mut self, found: Option<ImageEntry>)
        requires
            old(self).well_formed(),
            old(self).awaits_repair(),
            found matches Some(entry) ==> entry.urlbase@ == old(self).urlbase_at(
                old(self).listed@.len() as int,
            ),
        ensures
            final(self).well_formed(),
            final(self).archive == old(self).archive,
            final(self).downloads == old(self).downloads,
            final(self).chosen == old(self).chosen,
            final(self).fallback == old(self).fallback,
            final(self).deferred == old(self).deferred,
            final(self).fetched == old(self).fetched,
            match found {
                Some(entry) => {
                    &&& final(self).listed@ == old(self).listed@.push(Listed::Repaired)
                    &&& final(self).hydrated@ == old(self).hydrated@.push(entry)
                },
                None => {
                    &&& final(self).listed@ == old(self).listed@.push(Listed::Missing)
                    &&& final(self).hydrated@ == old(self).hydrated@
                },
            },
    {
        let ghost before = self.listed@;
        match found {
            Some(entry) => {
                self.listed.push(Listed::Repaired);
                self.hydrated.push(entry);
            },
            None => {
                self.listed.push(Listed::Missing);
            },
        }
        assert(self.listed@.drop_last() == before);
    }

    /// Hands the finished fetch back. Thumbnails are owed only for images it
    /// resolved while the cache belonged to a pass: repaired entries were in
    /// the catalogue that pass works over.
    pub fn finish(self) -> (batch: RefreshBatch)
        requires
            self.well_formed(),
            self.finished(),
        ensures
            batch.fetched@ == self.entries(),
            batch.ineligible == self.archive.ineligible,
            batch.anchor == self.archive.anchor,
            batch.fallback == self.fallback_path(),
            batch.thumbnails_deferred == self.owes_thumbnails(),
    {
        let mut fetched: Vec<ImageEntry> = self.fetched;
        let mut hydrated: Vec<ImageEntry> = self.hydrated;
        let fallback: Option<PathBuf> = if self.fallback {
            Some(fetched[fetched.len() - 1].filename.clone())
        } else {
            None
        };
        let thumbnails_deferred: bool = self.deferred && fetched.len() > 0;
        fetched.append(&mut hydrated);
        RefreshBatch {
            fetched,
            ineligible: self.archive.ineligible,
            anchor: self.archive.anchor,
            fallback,
            thumbnails_deferred,
        }
    }
}

proof fn window_places_ascend(eligible: Seq<ArchiveImage>, horizon: u8, count: nat)
    requires
        count <= eligible.len(),
    ensures
        forall|a: int, b: int|
            0 <= a < b < window_places(eligible, horizon, count).len() ==> (
            #[trigger] window_places(eligible, horizon, count)[a]) < (#[trigger] window_places(
                eligible,
                horizon,
                count,
            )[b]),
    decreases count,
{
    if count > 0 {
        window_places_ascend(eligible, horizon, (count - 1) as nat);
        window_lists_the_horizon(eligible, horizon, (count - 1) as nat);
    }
}

/// Repaired places stand in the archive's order, and are all the places noted
/// as repaired.
pub proof fn repairs_keep_the_order(listed: Seq<Listed>)
    ensures
        ({
            let places = repaired_places(listed);
            &&& forall|k: int|
                0 <= k < places.len() ==> 0 <= (#[trigger] places[k]) < listed.len()
                    && listed[places[k]] is Repaired
            &&& forall|a: int, b: int|
                0 <= a < b < places.len() ==> (#[trigger] places[a]) < (#[trigger] places[b])
            &&& forall|i: int|
                0 <= i < listed.len() && (#[trigger] listed[i]) is Repaired ==> places.contains(i)
        }),
    decreases listed.len(),
{
    if listed.len() > 0 {
        let rest = listed.drop_last();
        repairs_keep_the_order(rest);
        let before = repaired_places(rest);
        let places = repaired_places(listed);
        assert forall|i: int|
            0 <= i < listed.len() && (#[trigger] listed[i]) is Repaired implies places.contains(
            i,
        ) by {
            if i < rest.len() {
                assert(rest[i] is Repaired);
                let k = choose|k: int| 0 <= k < before.len() && before[k] == i;
                assert(places[k] == i);
            } else {
                assert(places[places.len() - 1] == i);
            }
        }
    }
}

/// Whether the archive lists every image once.
pub open spec fn lists_once(eligible: Seq<ArchiveImage>) -> bool {
    forall|i: int, j: int|
        0 <= i < j < eligible.len() ==> (#[trigger] eligible[i]).image.urlbase@ != (
        #[trigger] eligible[j]).image.urlbase@
}

/// A whole fetch hands back its selection, in order, and then every other
/// eligible image of which a usable file is on disk, in the archive's order,
/// and nothing else. Where the archive lists every image once, none is handed
/// back twice.
pub proof fn a_fetch_hands_back_its_selection_and_its_repairs(run: FetchRun)
    requires
        run.well_formed(),
        run.finished(),
    ensures
        ({
            let entries = run.entries();
            let selected = run.chosen@.len() as int;
            let repaired = repaired_places(run.listed@);
            &&& is_selection(run.archive.eligible@, run.downloads, run.chosen@, run.fallback)
            &&& entries.len() == selected + repaired.len()
            &&& forall|k: int|
                0 <= k < selected ==> (#[trigger] entries[k]).urlbase@ == run.urlbase_at(
                    run.chosen@[k] as int,
                )
            &&& forall|k: int|
                0 <= k < repaired.len() ==> entries[selected + k].urlbase@ == run.urlbase_at(
                    #[trigger] repaired[k],
                )
            &&& forall|a: int, b: int|
                0 <= a < b < repaired.len() ==> (#[trigger] repaired[a]) < (#[trigger] repaired[b])
            &&& forall|i: int|
                0 <= i < run.archive.eligible@.len() ==> match #[trigger] run.listed@[i] {
                    Listed::Fetched => exists|k: int|
                        0 <= k < selected && #[trigger] run.urlbase_at(run.chosen@[k] as int)
                            == run.urlbase_at(i),
                    Listed::Repaired => repaired.contains(i) && !names_image(
                        run.fetched@,
                        run.urlbase_at(i),
                    ),
                    Listed::Missing => !repaired.contains(i) && !names_image(
                        run.fetched@,
                        run.urlbase_at(i),
                    ),
                }
            &&& lists_once(run.archive.eligible@) ==> forall|a: int, b: int|
                0 <= a < b < entries.len() ==> (#[trigger] entries[a]).urlbase@ != (
                #[trigger] entries[b]).urlbase@
        }),
{
    let eligible = run.archive.eligible@;
    let entries = run.entries();
    let selected = run.chosen@.len() as int;
    let repaired = repaired_places(run.listed@);
    repairs_keep_the_order(run.listed@);
    window_places_ascend(eligible, run.downloads.horizon, eligible.len());
    assert forall|k: int| 0 <= k < repaired.len() implies entries[selected + k].urlbase@
        == run.urlbase_at(#[trigger] repaired[k]) by {
        assert(entries[selected + k] == run.hydrated@[k]);
    }
    assert forall|i: int| 0 <= i < eligible.len() && #[trigger] run.listed@[i] is Fetched implies (
    exists|k: int|
        0 <= k < selected && #[trigger] run.urlbase_at(run.chosen@[k] as int) == run.urlbase_at(
            i,
        )) by {
        let k = choose|k: int|
            0 <= k < run.fetched@.len() && (#[trigger] run.fetched@[k]).urlbase@
                == run.urlbase_at(i);
        assert(run.urlbase_at(run.chosen@[k] as int) == run.urlbase_at(i));
    }
    if lists_once(eligible) {
        assert forall|a: int, b: int| 0 <= a < b < entries.len() implies (
        #[trigger] entries[a]).urlbase@ != (#[trigger] entries[b]).urlbase@ by {
            if b < selected {
                let places = in_horizon(eligible, run.downloads.horizon);
                assert(run.chosen@[a] == places[a] && run.chosen@[b] == places[b]);
                assert(places[a] < places[b]);
                assert(eligible[run.chosen@[a] as int].image.urlbase@
                    != eligible[run.chosen@[b] as int].image.urlbase@);
            } else {
                let place = repaired[b - selected];
                assert(entries[selected + (b - selected)].urlbase@ == run.urlbase_at(place));
                if a < selected {
                    assert(run.listed@[place] is Repaired);
                    assert(entries[a] == run.fetched@[a]);
                } else {
                    let other = repaired[a - selected];
                    assert(entries[selected + (a - selected)].urlbase@ == run.urlbase_at(other));
                    assert(other < place);
                    assert(eligible[other].image.urlbase@ != eligible[place].image.urlbase@);
                }
            }
        }
    }
}

} // verus!
