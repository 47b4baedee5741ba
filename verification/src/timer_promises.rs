//! What the timers, the retention and the choice of an image are for, said of
//! single operations in terms of what goes in and what comes out.

use vstd::prelude::*;
use crate::catalogue::{
    newest_of, newest_publication, outlives_startup, sifted, stored_at, stored_image_has_its_path,
    target_of, FoundEntry, ImageEntry,
};
use crate::effect::{Effect, TaskView};
use crate::paths::{as_list, folder_of};
use crate::schedule::{
    horizon_for, keeps_less, next_due, next_number, plan_applies, RefreshDelay,
};
use crate::terms::{leads, may_replace, roomy, started_if};
use crate::wallpaper::{
    auto_applies, effective_retention, live_is_ours, live_path, synced, ColdStart, CurrentWallpaper, LiveFile,
};
use crate::window::{Timers, WindowView};
use std::path::PathBuf;

verus! {

/// Over a knowable display a prune is handed exactly the configured number of
/// days, whatever it is. Nothing is deleted for its age only where the display
/// cannot be known, or where everything is to be kept.
pub proof fn a_known_display_is_pruned_as_configured(live: CurrentWallpaper, days: u16)
    ensures
        live matches CurrentWallpaper::File(_) ==> effective_retention(live, days) == days,
        live is NoFile ==> effective_retention(live, days) == days,
        live is Unknown ==> effective_retention(live, days) == 0,
        effective_retention(live, days) == 0 <==> live is Unknown || days == 0,
{
}

/// A longer retention never deletes what a shorter one keeps, over the same
/// display.
pub proof fn a_longer_retention_keeps_more(live: CurrentWallpaper, shorter: u16, longer: u16)
    requires
        0 < shorter < longer,
        !(live is Unknown),
    ensures
        0 < effective_retention(live, shorter) < effective_retention(live, longer),
{
}

/// What is on display is what counts as applied: the very file shown, nothing
/// where knowably nothing is shown, and what was known before where the
/// display cannot be known.
pub proof fn the_display_says_what_is_applied(file: LiveFile, known: Option<PathBuf>)
    ensures
        synced(CurrentWallpaper::File(file), known) == Some(file.path),
        synced(CurrentWallpaper::NoFile, known) is None,
        synced(CurrentWallpaper::Unknown, known) == known,
        live_path(CurrentWallpaper::File(file).file()) == Some(file.path),
        live_is_ours(CurrentWallpaper::File(file).file()) == file.ours,
        CurrentWallpaper::NoFile.file() is None,
        CurrentWallpaper::Unknown.file() is None,
        live_path(None) is None,
        !live_is_ours(None),
{
}

/// The first wallpaper is owed over anything, a refused one only over the
/// display it was refused over or over none, and a paid one never again.
pub proof fn a_first_wallpaper_is_owed_once(
    refused_over: Option<PathBuf>,
    shown: PathBuf,
    any: Option<PathBuf>,
)
    ensures
        ColdStart::Pending.over(any),
        !ColdStart::Done.over(any),
        ColdStart::RetryOver(refused_over).over(None),
        ColdStart::RetryOver(refused_over).over(Some(shown)) <==> refused_over == Some(shown),
{
}

/// Whether a first wallpaper is still owed over a display, and whether an
/// image may take its place, agree on every display that is not ours.
pub proof fn the_first_wallpaper_is_decided_by_the_display(
    owed: ColdStart,
    shown: Option<LiveFile>,
)
    ensures
        ({
            let foreign = match shown {
                Some(file) => Some(LiveFile { ours: false, ..file }),
                None => None,
            };
            &&& may_replace(owed, foreign) <==> owed.over(live_path(shown))
            &&& may_replace(owed, None) <==> !(owed is Done)
            &&& may_replace(owed, shown) <==> owed.over(live_path(shown)) || live_is_ours(shown)
        }),
{
}

/// A refresh looks at as many of the newest days as are kept, and at the
/// whole week of the archive where images are kept longer, or forever.
pub proof fn a_refresh_looks_back_as_far_as_images_are_kept(days: u16)
    ensures
        0 < days < 8 ==> horizon_for(days) == days,
        days == 0 || days >= 8 ==> horizon_for(days) == 8,
{
}

/// Whether an image of this age, in days, is kept.
pub open spec fn kept_at(age: nat, days: u16) -> bool {
    days == 0 || age <= days
}

/// A retention is reduced exactly if some image that was kept under the old
/// one no longer is under the new one.
pub proof fn a_reduced_retention_drops_some_age(old: u16, new: u16)
    ensures
        keeps_less(old, new) <==> exists|age: nat| #[trigger] kept_at(age, old) && !kept_at(
            age,
            new,
        ),
{
    if keeps_less(old, new) {
        let age = if old == 0 {
            (new + 1) as nat
        } else {
            old as nat
        };
        assert(kept_at(age, old) && !kept_at(age, new));
    }
}

/// The next generation is another one, and the counters go up by one until
/// they start over.
pub proof fn generations_are_told_apart(generation: u64)
    ensures
        next_number(generation) != generation,
        generation < u64::MAX ==> next_number(generation) == generation + 1,
        generation == u64::MAX ==> next_number(generation) == 0,
{
}

/// With nothing to apply nothing is applied. A first wallpaper is applied
/// whatever is shown and whatever the response brought; after that, exactly
/// what a response brought over a wallpaper of ours.
pub proof fn a_refresh_applies_over_its_own(ours: bool, delivered: bool, cold: bool)
    ensures
        !plan_applies(cold, ours, false, delivered),
        plan_applies(true, ours, true, delivered),
        plan_applies(false, ours, true, delivered) <==> ours && delivered,
{
}

/// The newest image stands last: none stands after it. It is what is applied
/// where no fallback is held, and it dates the next refresh.
pub proof fn the_newest_image_stands_last(images: Seq<ImageEntry>, fallback: Option<PathBuf>)
    requires
        images.len() > 0,
    ensures
        newest_of(images) == Some(images[images.len() - 1]),
        newest_publication(images) == Some(images[images.len() - 1].fullstartdate),
        target_of(images, None) == Some(images[images.len() - 1]),
        (forall|i: int|
            0 <= i < images.len() ==> fallback != Some((#[trigger] images[i]).filename))
            ==> target_of(images, fallback) == Some(images[images.len() - 1]),
        newest_of(Seq::empty()) is None,
        newest_publication(Seq::empty()) is None,
        target_of(Seq::empty(), fallback) is None,
{
    if let Some(path) = fallback {
        stored_image_has_its_path(images, path);
        if let Some(entry) = stored_at(images, path) {
            let i = choose|i: int| 0 <= i < images.len() && images[i] == entry;
            assert(images[i].filename == path);
        }
        assert(stored_at(Seq::empty(), path) is None);
    }
}

/// An image that joins the catalogue at its end is the one applied next,
/// whatever the catalogue held before.
pub proof fn a_new_image_is_applied_next(images: Seq<ImageEntry>, newer: ImageEntry)
    ensures
        newest_of(images.push(newer)) == Some(newer),
        target_of(images.push(newer), None) == Some(newer),
{
}

/// Of several entries for one path the one that stands first is found.
pub proof fn the_first_entry_of_a_path_is_found(images: Seq<ImageEntry>, at: int)
    requires
        0 <= at < images.len(),
        forall|i: int| 0 <= i < at ==> (#[trigger] images[i]).filename != images[at].filename,
    ensures
        stored_at(images, images[at].filename) == Some(images[at]),
        target_of(images, Some(images[at].filename)) == Some(images[at]),
    decreases at,
{
    if at > 0 {
        let rest = images.skip(1);
        assert(images[0].filename != images[at].filename);
        assert(rest[at - 1] == images[at]);
        assert(forall|i: int| 0 <= i < rest.len() ==> #[trigger] rest[i] == images[i + 1]);
        the_first_entry_of_a_path_is_found(rest, at - 1);
    }
}

/// An entry outlives the startup exactly if its file exists, lies directly in
/// the download folder and bears a name of the applet's. Entries are sifted
/// one by one: what becomes of one does not depend on the others, and those
/// that stay keep their order.
pub proof fn entries_are_sifted_one_by_one(
    first: Seq<FoundEntry>,
    second: Seq<FoundEntry>,
    one: FoundEntry,
    images_dir: PathBuf,
    folder_exists: bool,
)
    ensures
        outlives_startup(one, images_dir) <==> one.is_file && one.names_own_file && folder_of(
            one.entry.filename,
        ) == Some(images_dir),
        sifted(seq![one], images_dir, folder_exists) == (if folder_exists && !outlives_startup(
            one,
            images_dir,
        ) {
            Seq::empty()
        } else {
            seq![one.entry]
        }),
        sifted(first + second, images_dir, folder_exists) == sifted(
            first,
            images_dir,
            folder_exists,
        ) + sifted(second, images_dir, folder_exists),
    decreases second.len(),
{
    assert(seq![one].drop_last() == Seq::<FoundEntry>::empty());
    assert(sifted(seq![one].drop_last(), images_dir, folder_exists) == Seq::<ImageEntry>::empty());
    assert(seq![one].last() == one);
    if second.len() == 0 {
        assert(first + second == first);
    } else {
        entries_are_sifted_one_by_one(first, second.drop_last(), one, images_dir, folder_exists);
        assert((first + second).drop_last() == first + second.drop_last());
        assert((first + second).last() == second.last());
    }
}

/// A leader arms the refresh timer under a new generation, with the delay it
/// was asked for, and touches nothing else. Nobody else arms it.
pub proof fn a_leader_arms_the_refresh_timer(window: WindowView, delay: RefreshDelay)
    requires
        roomy(window),
    ensures
        ({
            let (after, task) = window.schedule_refresh(delay);
            let generation = (window.timers.timer_generation + 1) as u64;
            &&& task.calls.len() == 0
            &&& task.effects == started_if(
                leads(window),
                Effect::RefreshTimer { generation, delay },
            )
            &&& !leads(window) ==> after == window
            &&& leads(window) ==> after == (WindowView {
                timers: Timers { timer_generation: generation, ..window.timers },
                ..window
            })
        }),
{
}

/// The shuffle is armed exactly while it is switched on and at least two
/// images are held, for the configured interval. A countdown that runs is
/// restarted only where that is asked for; one that must not run is
/// invalidated.
pub proof fn the_shuffle_runs_while_there_is_something_to_rotate(window: WindowView, restart: bool)
    requires
        leads(window),
        roomy(window),
    ensures
        ({
            let (after, task) = window.sync_shuffle(restart);
            let wanted = window.settings.config.shuffle_enabled && window.gallery.images.len() >= 2;
            let starts = wanted && (restart || !window.timers.shuffle_armed);
            let generation = (window.timers.shuffle_generation + 1) as u64;
            &&& after.timers.shuffle_armed == wanted
            &&& task.calls.len() == 0
            &&& task.effects == started_if(
                starts,
                Effect::ShuffleTimer {
                    generation,
                    interval_secs: window.settings.config.shuffle_interval_secs,
                },
            )
            &&& after == (WindowView {
                timers: Timers {
                    shuffle_armed: wanted,
                    shuffle_generation: if starts || !wanted {
                        generation
                    } else {
                        window.timers.shuffle_generation
                    },
                    ..window.timers
                },
                ..window
            })
        }),
{
}

/// Arming and disarming the shuffle by itself: both outdate what was pending,
/// and only the one leaves a tick to wait for.
pub proof fn the_shuffle_is_armed_and_disarmed(window: WindowView)
    requires
        leads(window),
        roomy(window),
    ensures
        ({
            let (armed, task) = window.arm_shuffle();
            let disarmed = window.disarm_shuffle();
            let generation = (window.timers.shuffle_generation + 1) as u64;
            &&& armed.timers.shuffle_armed && !disarmed.timers.shuffle_armed
            &&& armed.timers.shuffle_generation == generation
            &&& disarmed.timers.shuffle_generation == generation
            &&& task.calls.len() == 0
            &&& task.effects == seq![
                Effect::ShuffleTimer {
                    generation,
                    interval_secs: window.settings.config.shuffle_interval_secs,
                },
            ]
        }),
{
}

/// A process that does not lead touches no timer.
pub proof fn followers_arm_no_timer(window: WindowView, restart: bool)
    requires
        !leads(window),
    ensures
        window.sync_shuffle(restart) == (window, TaskView::none()),
        window.arm_shuffle() == (window, TaskView::none()),
        window.disarm_shuffle() == window,
        window.arm_lock_pokes() == (window, TaskView::none()),
        forall|generation: u64| window.lock_poke_due(generation) == TaskView::none(),
        forall|generation: u64| window.refresh_due(generation) == TaskView::none(),
{
}

/// A lock or a resume arms a ladder of two pokes under one new generation.
pub proof fn a_lock_arms_two_pokes(window: WindowView)
    requires
        leads(window),
        roomy(window),
    ensures
        ({
            let (after, task) = window.arm_lock_pokes();
            let generation = (window.timers.lock_poke_generation + 1) as u64;
            &&& task.calls.len() == 0
            &&& task.effects == seq![
                Effect::LockPokeTimer { generation, rung: 0 },
                Effect::LockPokeTimer { generation, rung: 1 },
            ]
            &&& after == (WindowView {
                timers: Timers { lock_poke_generation: generation, ..window.timers },
                ..window
            })
        }),
{
    let generation = (window.timers.lock_poke_generation + 1) as u64;
    assert(window.arm_lock_pokes().1.effects =~= seq![
        Effect::LockPokeTimer { generation, rung: 0 },
        Effect::LockPokeTimer { generation, rung: 1 },
    ]);
}

/// A rung pokes exactly if it belongs to the newest ladder and the desktop's
/// state can be poked.
pub proof fn the_newest_ladder_pokes(window: WindowView, generation: u64)
    ensures
        window.lock_poke_due(generation).calls.len() == 0,
        window.lock_poke_due(generation).effects == started_if(
            leads(window) && generation == window.timers.lock_poke_generation
                && window.timers.poke_config,
            Effect::PokeLockScreen,
        ),
{
}

/// An image may replace anything on a cold start, and otherwise exactly what
/// is ours; the refresh after a successful one is due off its own response.
pub proof fn a_success_is_followed_by_the_next_day(ours: bool, anchor: String)
    ensures
        auto_applies(true, ours),
        auto_applies(false, ours) == ours,
        next_due(anchor) == RefreshDelay::AfterPublication(Some(anchor)),
{
}

/// The files spared by the deleting passes are the applied one and the one
/// about to be, in this order, as far as there are any.
pub proof fn both_kept_files_are_spared(current: PathBuf, fallback: PathBuf)
    ensures
        as_list(Some(current)) + as_list(Some(fallback)) == seq![current, fallback],
        as_list(Some(current)) + as_list(None) == seq![current],
        as_list(None) + as_list(Some(fallback)) == seq![fallback],
        as_list(None).len() == 0,
{
}

} // verus!
