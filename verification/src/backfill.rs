//! Which catalogued images earn a thumbnail, and how many one pass decodes.

use vstd::prelude::*;
use crate::paths::{folder_of, holds_path, parent};
use crate::wallpaper::{effective_retention, prune_retention, CurrentWallpaper};
use std::path::PathBuf;

verus! {

/// How many thumbnails one pass may decode.
pub const MAX_THUMBNAIL_BACKFILL: usize = 256;

/// Policy of a thumbnail pass: how much decoding it may do, and which
/// entries are worth it.
#[derive(Clone, Debug, PartialEq, Eq)]
pub struct Backfill {
    /// Decode attempts the pass may spend.
    pub budget: usize,
    /// The retention in days the next prune will apply; `0` keeps everything.
    pub retention_days: u16,
    /// The applied wallpaper, which the prune keeps whatever its age.
    pub current: Option<PathBuf>,
    /// A downloaded fallback that waits for its apply, which the prune keeps
    /// just the same.
    pub protected_fallback: Option<PathBuf>,
    /// Another pass owns the cache: write no thumbnails at all.
    pub deferred: bool,
}

/// What the shell finds out about a catalogued image before it decodes it.
#[derive(Clone, Debug, PartialEq, Eq)]
pub struct EntryFacts {
    pub path: PathBuf,
    /// The entry's name is that of a file of the applet's.
    pub names_own_file: bool,
    /// The file exists.
    pub is_file: bool,
    /// The image is within the policy's retention.
    pub within_retention: bool,
    /// A usable thumbnail is cached.
    pub is_cached: bool,
    /// The image is known not to decode.
    pub decode_failed: bool,
}

impl Backfill {
    /// The policy over a display in state `live`.
    pub open spec fn policy(
        live: CurrentWallpaper,
        configured_days: u16,
        current: Option<PathBuf>,
    ) -> Backfill {
        Backfill {
            budget: MAX_THUMBNAIL_BACKFILL,
            retention_days: effective_retention(live, configured_days),
            current,
            protected_fallback: None,
            deferred: false,
        }
    }

    /// The policy over a display in state `live`. The retention is derived
    /// here from the state the prune consults too, so that the two can never
    /// be handed different numbers.
    pub fn new(live: &CurrentWallpaper, configured_days: u16, current: Option<PathBuf>) -> (policy:
        Backfill)
        ensures
            policy == Backfill::policy(*live, configured_days, current),
    {
        Backfill {
            budget: MAX_THUMBNAIL_BACKFILL,
            retention_days: prune_retention(live, configured_days),
            current,
            protected_fallback: None,
            deferred: false,
        }
    }

    /// Whether the entry outlives the next prune.
    pub open spec fn outlives_prune(self, facts: EntryFacts) -> bool {
        facts.within_retention || self.current == Some(facts.path) || self.protected_fallback
            == Some(facts.path)
    }

    /// Whether the entry will still exist after the prune that follows: the
    /// same age test, and the same two protected files.
    pub fn worth_decoding(&self, facts: &EntryFacts) -> (worth: bool)
        ensures
            worth == self.outlives_prune(*facts),
    {
        facts.within_retention || holds_path(&self.current, &facts.path) || holds_path(
            &self.protected_fallback,
            &facts.path,
        )
    }

    /// Whether an entry that lies in `folder` earns a decode.
    pub open spec fn earns_decode_in(
        self,
        facts: EntryFacts,
        folder: Option<PathBuf>,
        download_dir: PathBuf,
    ) -> bool {
        &&& folder == Some(download_dir)
        &&& facts.names_own_file
        &&& facts.is_file
        &&& self.outlives_prune(facts)
        &&& !facts.is_cached
        &&& !facts.decode_failed
    }

    /// Whether the entry earns a decode.
    pub open spec fn earns_decode(self, facts: EntryFacts, download_dir: PathBuf) -> bool {
        self.earns_decode_in(facts, folder_of(facts.path), download_dir)
    }

    /// Whether an entry that was found to lie in `folder` earns a decode from
    /// the budget: it must be a file the applet owns inside the download
    /// folder, still be there after the next prune, and have no settled slot
    /// in the cache yet.
    pub fn should_decode_in(
        &self,
        facts: &EntryFacts,
        folder: &Option<PathBuf>,
        download_dir: &PathBuf,
    ) -> (decode: bool)
        ensures
            decode == self.earns_decode_in(*facts, *folder, *download_dir),
    {
        if !holds_path(folder, download_dir) || !facts.names_own_file || !facts.is_file {
            return false;
        }
        self.worth_decoding(facts) && !facts.is_cached && !facts.decode_failed
    }

    /// Whether the entry earns a decode from the budget. Its path is looked
    /// at here: a catalogue edited by hand must not get an arbitrary image
    /// decoded and a copy of it cached.
    pub fn should_decode(&self, facts: &EntryFacts, download_dir: &PathBuf) -> (decode: bool)
        ensures
            decode == self.earns_decode(*facts, *download_dir),
    {
        self.should_decode_in(facts, &parent(&facts.path), download_dir)
    }
}

/// A thumbnail pass over a catalogue, newest image first. The shell asks for
/// the place of the next image, offers what it finds out about it, and decodes
/// it where the pass says so.
#[derive(Clone, Copy, Debug, PartialEq, Eq, Structural)]
pub struct BackfillRun {
    /// How many images, the oldest ones, were not offered yet.
    pub left: usize,
    /// Decodes spent so far, whether or not they succeeded.
    pub spent: usize,
}

/// The place a pass looks at next: the newest image not offered yet, while
/// the pass owns the cache and has decodes to spend.
pub open spec fn next_place(policy: Backfill, left: nat, spent: nat) -> Option<int> {
    if policy.deferred || spent >= policy.budget || left == 0 {
        None
    } else {
        Some(left - 1)
    }
}

/// Whether a pass decodes an image it looks at; the second half says that the
/// fetch the pass belongs to has thumbnailed the file itself.
pub open spec fn wants(
    policy: Backfill,
    download_dir: PathBuf,
    offer: (EntryFacts, bool),
) -> bool {
    !offer.1 && policy.earns_decode(offer.0, download_dir)
}

impl BackfillRun {
    /// A pass over a catalogue of `count` images, oldest first.
    pub fn new(count: usize) -> (run: BackfillRun)
        ensures
            run == (BackfillRun { left: count, spent: 0 }),
    {
        BackfillRun { left: count, spent: 0 }
    }

    /// The place in the catalogue of the next image to offer; none when the
    /// pass is over.
    pub fn next(&self, policy: &Backfill) -> (place: Option<usize>)
        ensures
            match place {
                Some(at) => next_place(*policy, self.left as nat, self.spent as nat) == Some(
                    at as int,
                ),
                None => next_place(*policy, self.left as nat, self.spent as nat) is None,
            },
    {
        if policy.deferred || self.spent >= policy.budget || self.left == 0 {
            None
        } else {
            Some(self.left - 1)
        }
    }

    /// Offers the next image to the pass and says whether to decode it.
    /// `handled` says that the fetch the pass belongs to has thumbnailed the
    /// file itself.
    pub fn offer(
        &mut self,
        policy: &Backfill,
        download_dir: &PathBuf,
        facts: &EntryFacts,
        handled: bool,
    ) -> (decode: bool)
        requires
            next_place(*policy, old(self).left as nat, old(self).spent as nat) is Some,
        ensures
            decode == wants(*policy, *download_dir, (*facts, handled)),
            final(self).left == old(self).left - 1,
            final(self).spent == old(self).spent + (if decode {
                1int
            } else {
                0int
            }),
    {
        self.left = self.left - 1;
        if handled || !policy.should_decode(facts, download_dir) {
            return false;
        }
        self.spent = self.spent + 1;
        true
    }
}

/// The places a pass decodes, in the order it does: of a catalogue described
/// by `offers`, oldest first, the `left` oldest images are still to be looked
/// at and `spent` decodes are used up.
pub open spec fn decoded(
    policy: Backfill,
    download_dir: PathBuf,
    offers: Seq<(EntryFacts, bool)>,
    left: nat,
    spent: nat,
) -> Seq<int>
    decreases left,
{
    match next_place(policy, left, spent) {
        None => Seq::empty(),
        Some(place) => if wants(policy, download_dir, offers[place]) {
            seq![place] + decoded(policy, download_dir, offers, (left - 1) as nat, spent + 1)
        } else {
            decoded(policy, download_dir, offers, (left - 1) as nat, spent)
        },
    }
}

/// A pass goes newest first and skips nothing it wants: every image it
/// decodes is wanted and older than the one before, and a wanted image is
/// left out only where newer ones have used the whole budget up.
pub proof fn a_pass_goes_newest_first(
    policy: Backfill,
    download_dir: PathBuf,
    offers: Seq<(EntryFacts, bool)>,
    left: nat,
    spent: nat,
)
    requires
        !policy.deferred,
        left <= offers.len(),
        spent <= policy.budget,
    ensures
        ({
            let places = decoded(policy, download_dir, offers, left, spent);
            &&& forall|k: int|
                0 <= k < places.len() ==> 0 <= (#[trigger] places[k]) < left && wants(
                    policy,
                    download_dir,
                    offers[places[k]],
                )
            &&& forall|a: int, b: int|
                0 <= a < b < places.len() ==> (#[trigger] places[a]) > (#[trigger] places[b])
            &&& forall|i: int|
                #![trigger offers[i]]
                0 <= i < left && wants(policy, download_dir, offers[i]) && !places.contains(i) ==> {
                    &&& spent + places.len() == policy.budget
                    &&& forall|k: int| 0 <= k < places.len() ==> (#[trigger] places[k]) > i
                }
        }),
    decreases left,
{
    let places = decoded(policy, download_dir, offers, left, spent);
    if let Some(place) = next_place(policy, left, spent) {
        let wanted = wants(policy, download_dir, offers[place]);
        let then_spent = if wanted {
            spent + 1
        } else {
            spent
        };
        let rest = decoded(policy, download_dir, offers, (left - 1) as nat, then_spent);
        a_pass_goes_newest_first(policy, download_dir, offers, (left - 1) as nat, then_spent);
        if wanted {
            assert(places == seq![place] + rest);
            assert(forall|k: int| 0 < k < places.len() ==> #[trigger] places[k] == rest[k - 1]);
            assert forall|i: int|
                #![trigger offers[i]]
                0 <= i < left && wants(policy, download_dir, offers[i]) && !places.contains(i) implies {
                &&& spent + places.len() == policy.budget
                &&& forall|k: int| 0 <= k < places.len() ==> (#[trigger] places[k]) > i
            } by {
                assert(places[0] == place);
                if rest.contains(i) {
                    let k = choose|k: int| 0 <= k < rest.len() && rest[k] == i;
                    assert(places[k + 1] == i);
                }
            }
        }
    }
}

/// One pass never decodes more than its budget, over any catalogue.
pub proof fn a_pass_stays_within_its_budget(
    policy: Backfill,
    download_dir: PathBuf,
    offers: Seq<(EntryFacts, bool)>,
    left: nat,
    spent: nat,
)
    requires
        spent <= policy.budget,
    ensures
        spent + decoded(policy, download_dir, offers, left, spent).len() <= policy.budget,
    decreases left,
{
    if let Some(place) = next_place(policy, left, spent) {
        if wants(policy, download_dir, offers[place]) {
            a_pass_stays_within_its_budget(policy, download_dir, offers, (left - 1) as nat, spent + 1);
        } else {
            a_pass_stays_within_its_budget(policy, download_dir, offers, (left - 1) as nat, spent);
        }
    }
}

/// A deferred refresh writes no thumbnails at all.
pub proof fn a_deferred_pass_decodes_nothing(
    policy: Backfill,
    download_dir: PathBuf,
    offers: Seq<(EntryFacts, bool)>,
    left: nat,
    spent: nat,
)
    requires
        policy.deferred,
    ensures
        decoded(policy, download_dir, offers, left, spent).len() == 0,
{
}

/// Whatever the catalogue says, a pass decodes files directly inside the
/// download folder and no others.
pub proof fn a_pass_stays_in_the_folder(
    policy: Backfill,
    download_dir: PathBuf,
    offers: Seq<(EntryFacts, bool)>,
    left: nat,
    spent: nat,
)
    requires
        left <= offers.len(),
    ensures
        forall|k: int|
            0 <= k < decoded(policy, download_dir, offers, left, spent).len() ==> folder_of(
                offers[#[trigger] decoded(policy, download_dir, offers, left, spent)[k]].0.path,
            ) == Some(download_dir),
    decreases left,
{
    if let Some(place) = next_place(policy, left, spent) {
        if wants(policy, download_dir, offers[place]) {
            let rest = decoded(policy, download_dir, offers, (left - 1) as nat, spent + 1);
            a_pass_stays_in_the_folder(
                policy,
                download_dir,
                offers,
                (left - 1) as nat,
                spent + 1,
            );
            let places = decoded(policy, download_dir, offers, left, spent);
            assert(forall|k: int| 0 < k < places.len() ==> #[trigger] places[k] == rest[k - 1]);
        } else {
            a_pass_stays_in_the_folder(policy, download_dir, offers, (left - 1) as nat, spent);
        }
    }
}

} // verus!
