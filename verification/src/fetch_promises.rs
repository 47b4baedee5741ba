//! What the selection of a fetch and a thumbnail pass are for, said of single
//! decisions in terms of what goes in and what comes out.

use vstd::prelude::*;
use crate::backfill::{next_place, wants, Backfill, EntryFacts};
use crate::fetch::{
    in_horizon, is_fallback, is_selection, repaired_places, replaced, usable,
    window_lists_the_horizon, window_places, ArchiveImage, Downloads, FetchRun, Listed,
    RefreshError,
};
use crate::paths::folder_of;
use std::path::PathBuf;

verus! {

/// The images of the horizon are looked at one by one and stay in the
/// archive's order: one more listed image adds its own place at the end
/// exactly if it lies within the horizon.
pub proof fn the_horizon_is_taken_in_order(
    eligible: Seq<ArchiveImage>,
    horizon: u8,
    count: nat,
)
    requires
        count < eligible.len(),
    ensures
        window_places(eligible, horizon, 0).len() == 0,
        window_places(eligible, horizon, count + 1) == window_places(eligible, horizon, count) + (
        if eligible[count as int].position < horizon {
            seq![count as int]
        } else {
            Seq::empty()
        }),
        in_horizon(eligible, horizon) == window_places(eligible, horizon, eligible.len()),
{
}

/// A fetch selects every image within the horizon. With none there, and a
/// fallback permitted, it selects the first image listed and no other; with
/// none permitted, or none listed, it selects nothing.
pub proof fn a_selection_is_the_horizon_or_one_fallback(
    eligible: Seq<ArchiveImage>,
    downloads: Downloads,
    chosen: Seq<usize>,
    fallback: bool,
)
    requires
        is_selection(eligible, downloads, chosen, fallback),
    ensures
        ({
            let near = exists|i: int|
                0 <= i < eligible.len() && (#[trigger] eligible[i]).position < downloads.horizon;
            &&& fallback <==> downloads.fallback && !near && eligible.len() > 0
            &&& fallback ==> chosen.len() == 1 && chosen[0] == 0
            &&& !fallback ==> {
                &&& chosen.len() == in_horizon(eligible, downloads.horizon).len()
                &&& forall|k: int|
                    0 <= k < chosen.len() ==> chosen[k] < eligible.len()
                        && eligible[#[trigger] chosen[k] as int].position < downloads.horizon
                &&& forall|i: int|
                    0 <= i < eligible.len() && (#[trigger] eligible[i]).position
                        < downloads.horizon ==> exists|k: int|
                        0 <= k < chosen.len() && #[trigger] chosen[k] == i
            }
            &&& !near && !fallback ==> chosen.len() == 0
        }),
{
    let places = in_horizon(eligible, downloads.horizon);
    window_lists_the_horizon(eligible, downloads.horizon, eligible.len());
    if places.len() > 0 {
        assert(eligible[places[0]].position < downloads.horizon);
    }
    let near = exists|i: int|
        0 <= i < eligible.len() && (#[trigger] eligible[i]).position < downloads.horizon;
    if near {
        let i = choose|i: int|
            0 <= i < eligible.len() && (#[trigger] eligible[i]).position < downloads.horizon;
        assert(places.contains(i));
    } else if downloads.fallback && eligible.len() > 0 {
        assert(eligible[0].position >= downloads.horizon);
        assert(is_fallback(eligible, downloads, Some(0int)));
    }
    if fallback {
        crate::fetch::fallback_only_for_an_empty_horizon(
            eligible,
            downloads,
            chosen[0] as int,
        );
    } else {
        assert forall|k: int| 0 <= k < chosen.len() implies chosen[k] < eligible.len()
            && eligible[#[trigger] chosen[k] as int].position < downloads.horizon by {
            assert(chosen[k] == places[k]);
        }
        assert forall|i: int|
            0 <= i < eligible.len() && (#[trigger] eligible[i]).position
                < downloads.horizon implies exists|k: int|
            0 <= k < chosen.len() && #[trigger] chosen[k] == i by {
            assert(places.contains(i));
            let k = choose|k: int| 0 <= k < places.len() && places[k] == i;
            assert(chosen[k] == i);
        }
    }
}

/// That no fallback is picked is right exactly where none is permitted, the
/// horizon holds something, or nothing is listed at all.
pub proof fn a_wanted_fallback_is_never_left_out(
    eligible: Seq<ArchiveImage>,
    downloads: Downloads,
)
    ensures
        is_fallback(eligible, downloads, None) <==> {
            ||| !downloads.fallback
            ||| eligible.len() == 0
            ||| exists|i: int|
                0 <= i < eligible.len() && (#[trigger] eligible[i]).position < downloads.horizon
        },
{
    let places = in_horizon(eligible, downloads.horizon);
    window_lists_the_horizon(eligible, downloads.horizon, eligible.len());
    if places.len() > 0 {
        assert(eligible[places[0]].position < downloads.horizon);
    }
    if exists|i: int|
        0 <= i < eligible.len() && (#[trigger] eligible[i]).position < downloads.horizon {
        let i = choose|i: int|
            0 <= i < eligible.len() && (#[trigger] eligible[i]).position < downloads.horizon;
        assert(places.contains(i));
    } else if eligible.len() > 0 {
        assert(eligible[0].position >= downloads.horizon);
    }
}

/// Repaired images follow one another as they are listed, and what a fetch
/// hands back is what it resolved and then what it repaired.
pub proof fn repairs_are_listed_in_turn(listed: Seq<Listed>, next: Listed, run: FetchRun)
    ensures
        repaired_places(Seq::empty()).len() == 0,
        repaired_places(listed.push(next)) == repaired_places(listed) + (if next is Repaired {
            seq![listed.len() as int]
        } else {
            Seq::empty()
        }),
        run.entries().len() == run.fetched@.len() + run.hydrated@.len(),
        forall|k: int|
            0 <= k < run.fetched@.len() ==> #[trigger] run.entries()[k] == run.fetched@[k],
        forall|k: int|
            0 <= k < run.hydrated@.len() ==> #[trigger] run.entries()[run.fetched@.len() + k]
                == run.hydrated@[k],
{
    assert(listed.push(next).drop_last() == listed);
}

/// An image is decoded exactly if the fetch has not thumbnailed it itself, it
/// is a file of the applet's directly in the download folder, it outlives the
/// next prune by its age, as the applied one or as the one about to be, and
/// nothing is settled about its thumbnail.
pub proof fn a_pass_decodes_what_lacks_a_thumbnail(
    policy: Backfill,
    download_dir: PathBuf,
    facts: EntryFacts,
    handled: bool,
)
    ensures
        wants(policy, download_dir, (facts, handled)) <==> {
            &&& !handled
            &&& folder_of(facts.path) == Some(download_dir)
            &&& facts.names_own_file && facts.is_file
            &&& facts.within_retention || policy.current == Some(facts.path)
                || policy.protected_fallback == Some(facts.path)
            &&& !facts.is_cached && !facts.decode_failed
        },
{
}

/// A pass goes on with the newest image not looked at while it may decode and
/// has something to spend, and is over otherwise.
pub proof fn a_pass_goes_on_while_it_may(policy: Backfill, left: nat, spent: nat)
    ensures
        !policy.deferred && spent < policy.budget && left > 0 ==> next_place(policy, left, spent)
            == Some(left - 1),
        policy.deferred || spent >= policy.budget || left == 0 ==> next_place(policy, left, spent)
            is None,
{
}

/// Trouble of our own is blamed on the disk, any other on the network, in the
/// words it came with.
pub proof fn a_failure_is_blamed_on_its_cause(detail: String)
    ensures
        RefreshError::blamed(detail, true) == RefreshError::Disk(detail),
        RefreshError::blamed(detail, false) == RefreshError::Network(detail),
{
}

/// A file that is there and is an image saves its download; one that is no
/// image is reported, to be unlinked when its replacement has landed anywhere
/// but in its own place.
pub proof fn only_an_image_saves_a_download(path: PathBuf, fresh: PathBuf, is_jpeg: bool)
    ensures
        usable(Some(path), true) == Ok::<PathBuf, Option<PathBuf>>(path),
        usable(Some(path), false) == Err::<PathBuf, Option<PathBuf>>(Some(path)),
        usable(None, is_jpeg) == Err::<PathBuf, Option<PathBuf>>(None),
        replaced(None, fresh) is None,
        replaced(Some(fresh), fresh) is None,
        path != fresh ==> replaced(Some(path), fresh) == Some(path),
{
}

/// A finished fetch hands back, as the image to be applied, the file of the
/// one image it selected beyond the horizon, and owes thumbnails exactly if it
/// left out those of images it selected.
pub proof fn a_fetch_names_its_fallback_and_its_debt(run: FetchRun)
    requires
        run.well_formed(),
        run.finished(),
    ensures
        run.fallback ==> run.fetched@.len() == 1 && run.fallback_path() == Some(
            run.fetched@[0].filename,
        ),
        !run.fallback ==> run.fallback_path() is None,
        run.owes_thumbnails() <==> run.deferred && run.chosen@.len() > 0,
{
}

} // verus!
