use daymural::catalogue::{
    outlives, read_non_leader_reload, restore_catalogue, restore_catalogue_for_role, Catalogue,
    CatalogueRestore, FoundEntry, ImageEntry, NonLeaderReload, Provenance, RoleRestore,
    StartupRestore,
};
use daymural::coordination::{
    merge_coordination, CoordinationConfig, PeerApplyNotice, PeerRefreshCompletion,
    PeerRefreshOutcome,
};
use daymural::effect::{ApplyOutcome, ApplyReason, Call, Effect};
use daymural::fetch::RefreshError;
use daymural::message::Message;
use daymural::settings::AppletConfig;
use daymural::wallpaper::{CurrentWallpaper, LiveFile};
use daymural::window::{LeaderReadiness, Leadership, Window};
use std::path::PathBuf;

fn entry_in_memory(startdate: &str, name: &str) -> ImageEntry {
    ImageEntry {
        urlbase: format!("/th?id=OHR.{name}"),
        startdate: startdate.to_owned(),
        fullstartdate: format!("{startdate}0700"),
        title: format!("Title {name}"),
        copyright: "© Someone".to_owned(),
        copyrightlink: "https://example.com".to_owned(),
        filename: PathBuf::from(format!("/imgs/{startdate}-{name}_UHD.jpg")),
    }
}

fn follower() -> Window {
    let mut window = Window::default();
    window.role.leadership = Leadership::forced(false);
    window
}

fn file(path: &str) -> CurrentWallpaper {
    CurrentWallpaper::File(LiveFile { path: PathBuf::from(path), ours: false })
}

fn mailbox(request: u64, completed: u64, outcome: PeerRefreshOutcome) -> CoordinationConfig {
    CoordinationConfig {
        refresh_request: request,
        refresh_completion: PeerRefreshCompletion { request: completed, outcome },
        apply_notice: None,
    }
}

fn peer_follower(request: u64) -> Window {
    let mut window = follower();
    window.peers.requested_peer_refresh = Some(request);
    window.work.refresh_pending = true;
    window.peers.peer_refresh_timeout_generation = request;
    window
}

fn follower_with_mailbox() -> Window {
    let mut window = follower();
    window.peers.coordination_context = true;
    window
}

fn follower_reload(catalogue: Catalogue, live: CurrentWallpaper) -> NonLeaderReload {
    NonLeaderReload { catalogue, provenance: Provenance::Loaded, live }
}

fn rebuilt_reload(live: CurrentWallpaper) -> NonLeaderReload {
    NonLeaderReload {
        catalogue: Catalogue { images: vec![entry_in_memory("20260820", "Rebuilt_ROW1")] },
        provenance: Provenance::Rebuilt,
        live,
    }
}

#[test]
fn a_follower_with_a_rebuilt_catalogue_asks_the_leader_once() {
    let mut follower = follower_with_mailbox();
    follower.gallery.metadata_repair_due = true;
    follower.gallery.catalogue.images = vec![entry_in_memory("20260820", "Rebuilt_ROW1")];

    let startup = follower.arm_initial_duties(CurrentWallpaper::NoFile);
    assert!(!follower.gallery.metadata_repair_due, "consumed by the arming");
    assert!(follower.peers.peer_refresh_write_pending, "the mailbox request is persisting");
    assert!(!follower.work.refresh_pending, "not until the persist lands");
    assert!(!follower.work.thumbnail_pass_pending, "a follower produces nothing");
    assert_eq!(
        startup.effects,
        vec![Effect::LeadershipRetry { generation: 1 }, Effect::RequestPeerRefresh]
    );

    let timeout = follower.update(Message::PeerRefreshRequested(Ok(1)), 0);
    assert_eq!(follower.peers.requested_peer_refresh, Some(1));
    assert!(follower.work.refresh_pending);
    assert_eq!(timeout.effects, vec![Effect::PeerRefreshTimer { generation: 1, request: 1 }]);
    assert_eq!(follower.peers.coordination.refresh_request, 1);

    // The leader acknowledges: the reload it triggers never asks again.
    let reload = follower.settle_peer_refresh(
        PeerRefreshCompletion { request: 1, outcome: PeerRefreshOutcome::Network },
        0,
    );
    assert_eq!(reload.units(), 1);
    assert!(!follower.peers.non_leader_reload_repairs);
    let again = follower.finish_non_leader_reload(
        follower.peers.non_leader_reload_generation,
        Ok(rebuilt_reload(CurrentWallpaper::NoFile)),
    );
    assert_eq!(again.units(), 0, "settled: no second request");
    assert!(!follower.peers.peer_refresh_write_pending);
}

#[test]
fn a_follower_empty_rebuild_or_loaded_catalogue_asks_for_nothing() {
    // An empty rebuild has nothing to repair.
    let mut empty = follower_with_mailbox();
    empty.gallery.metadata_repair_due = true;
    let startup = empty.arm_initial_duties(CurrentWallpaper::NoFile);
    assert!(!empty.peers.peer_refresh_write_pending);
    assert_eq!(startup.units(), 1, "takeover retry only");

    // A loaded reload asks for nothing either.
    let mut loaded = follower_with_mailbox();
    loaded.request_non_leader_reload(true);
    let task = loaded.finish_non_leader_reload(
        loaded.peers.non_leader_reload_generation,
        Ok(follower_reload(
            Catalogue { images: vec![entry_in_memory("20260820", "Loaded_ROW1")] },
            CurrentWallpaper::NoFile,
        )),
    );
    assert_eq!(task.units(), 0);
    assert!(!loaded.peers.peer_refresh_write_pending);
}

#[test]
fn a_rebuilt_popup_reload_requests_a_repair_once_per_pending_request() {
    let mut follower = follower_with_mailbox();

    // Popup open: the reload may repair, and a rebuilt result asks.
    let open = follower.update(Message::TogglePopup, 0);
    assert_eq!(open.units(), 2, "popup plus the guarded reload");
    assert!(follower.peers.non_leader_reload_repairs);
    let request = follower.finish_non_leader_reload(
        follower.peers.non_leader_reload_generation,
        Ok(rebuilt_reload(CurrentWallpaper::NoFile)),
    );
    assert_eq!(request.units(), 1, "one mailbox request");
    assert!(follower.peers.peer_refresh_write_pending);
    assert_eq!(follower.gallery.catalogue.images.len(), 1, "the reload is adopted too");

    // While the persist is pending, another rebuilt reload asks nothing more.
    follower.request_non_leader_reload(true);
    let dup = follower.finish_non_leader_reload(
        follower.peers.non_leader_reload_generation,
        Ok(rebuilt_reload(CurrentWallpaper::NoFile)),
    );
    assert_eq!(dup.units(), 0);

    // Nor while the request waits for its acknowledgement.
    follower.peers.peer_refresh_write_pending = false;
    follower.peers.requested_peer_refresh = Some(4);
    follower.work.refresh_pending = true;
    follower.request_non_leader_reload(true);
    let dup = follower.finish_non_leader_reload(
        follower.peers.non_leader_reload_generation,
        Ok(rebuilt_reload(CurrentWallpaper::NoFile)),
    );
    assert_eq!(dup.units(), 0);
    assert!(!follower.peers.peer_refresh_write_pending);
}

#[test]
fn a_follower_repair_request_is_made_again_after_the_timeout() {
    let mut follower = follower_with_mailbox();
    follower.gallery.metadata_repair_due = true;
    follower.gallery.catalogue.images = vec![entry_in_memory("20260820", "Rebuilt_ROW1")];
    follower.arm_initial_duties(CurrentWallpaper::NoFile);
    let timeout = follower.update(Message::PeerRefreshRequested(Ok(1)), 0);
    assert_eq!(timeout.effects, vec![Effect::PeerRefreshTimer { generation: 1, request: 1 }]);

    // No leader covers it: the reload after the timeout is the retry point.
    let reload = follower.update(Message::PeerRefreshTimeout { generation: 1, request: 1 }, 0);
    assert_eq!(reload.units(), 1);
    assert!(!follower.work.refresh_pending);
    assert_eq!(follower.peers.requested_peer_refresh, None);
    assert!(follower.peers.non_leader_reload_repairs);

    let retry = follower.finish_non_leader_reload(
        follower.peers.non_leader_reload_generation,
        Ok(rebuilt_reload(CurrentWallpaper::NoFile)),
    );
    assert_eq!(retry.effects, vec![Effect::RequestPeerRefresh]);
    assert!(follower.peers.peer_refresh_write_pending);
    follower.update(Message::PeerRefreshRequested(Ok(2)), 0);
    assert_eq!(follower.peers.requested_peer_refresh, Some(2), "a newer counter");
    assert!(follower.work.refresh_pending);
}

#[test]
fn non_leader_popup_batches_reload_without_changing_popup_ledger() {
    let mut follower = follower();
    follower.popups.dropdowns_open = 2;
    let task = follower.update(Message::TogglePopup, 0);
    assert_eq!(task.units(), 2, "popup action and blocking reload are batched");
    assert_eq!(follower.peers.non_leader_reload_generation, 1);
    assert_eq!(follower.popups.dropdowns_open, 2, "opening does not edit the ledger");
    assert_eq!(follower.popups.popup, None, "the runtime still owns popup creation");

    let mut leader = Window::default();
    let task = leader.update(Message::TogglePopup, 0);
    assert_eq!(task.units(), 1, "a leader trusts its in-memory catalogue");
    assert_eq!(leader.peers.non_leader_reload_generation, 0);
}

#[test]
fn pending_peer_refresh_suppresses_popup_reload() {
    let mut writing = follower();
    writing.peers.peer_refresh_write_pending = true;
    let mut waiting = follower();
    waiting.peers.requested_peer_refresh = Some(4);
    waiting.work.refresh_pending = true;
    for mut follower in [writing, waiting] {
        let task = follower.update(Message::TogglePopup, 0);
        assert_eq!(task.units(), 1, "popup creation is never delayed");
        assert_eq!(follower.peers.non_leader_reload_generation, 0);
    }
}

#[test]
fn non_leader_reload_adopts_added_and_dropped_entries_and_live_current() {
    let dropped = entry_in_memory("20260806", "Dropped_ROW1");
    let added = entry_in_memory("20260808", "Added_ROW2");
    let mut follower = follower();
    follower.gallery.catalogue.images = vec![dropped];
    follower.gallery.current = Some(PathBuf::from("/images/stale.jpg"));
    follower.peers.non_leader_reload_generation = 3;

    follower.finish_non_leader_reload(
        3,
        Ok(follower_reload(Catalogue { images: vec![added.clone()] }, file("/images/live.jpg"))),
    );

    assert_eq!(follower.gallery.catalogue.images, vec![added]);
    assert_eq!(follower.gallery.current, Some(PathBuf::from("/images/live.jpg")));
}

#[test]
fn peer_refresh_settlement_reuses_the_guarded_reload() {
    let added = entry_in_memory("20260808", "Peer_ROW2");
    let mut follower = peer_follower(5);

    let reload_task = follower.settle_peer_refresh(
        PeerRefreshCompletion { request: 5, outcome: PeerRefreshOutcome::Success },
        0,
    );
    assert_eq!(reload_task.units(), 1);
    assert_eq!(follower.peers.non_leader_reload_generation, 1);
    follower.finish_non_leader_reload(
        1,
        Ok(follower_reload(
            Catalogue { images: vec![added.clone()] },
            file("/images/peer-live.jpg"),
        )),
    );

    assert_eq!(follower.gallery.catalogue.images, vec![added]);
    assert_eq!(follower.gallery.current, Some(PathBuf::from("/images/peer-live.jpg")));
}

#[test]
fn stale_non_leader_reload_cannot_overwrite_apply_or_takeover_state() {
    let stale_entry = entry_in_memory("20260801", "Stale_ROW1");
    let authoritative = entry_in_memory("20260809", "Authoritative_ROW2");

    let mut after_apply = follower();
    after_apply.peers.non_leader_reload_generation = 1;
    after_apply.gallery.catalogue.images = vec![authoritative.clone()];
    let applied = PathBuf::from("/images/applied.jpg");
    after_apply.finish_manual_apply(applied.clone());
    after_apply.finish_non_leader_reload(
        1,
        Ok(follower_reload(
            Catalogue { images: vec![stale_entry.clone()] },
            CurrentWallpaper::NoFile,
        )),
    );
    assert_eq!(after_apply.gallery.catalogue.images, vec![authoritative.clone()]);
    assert_eq!(after_apply.gallery.current, Some(applied));

    let mut after_takeover = Window::default();
    after_takeover.role.leadership = Leadership::forced(true);
    after_takeover.role.leader_readiness = LeaderReadiness::Ready;
    after_takeover.peers.non_leader_reload_generation = 2;
    after_takeover.gallery.catalogue.images = vec![authoritative.clone()];
    after_takeover.gallery.current = Some(PathBuf::from("/images/leader.jpg"));
    after_takeover.finish_non_leader_reload(
        2,
        Ok(follower_reload(Catalogue { images: vec![stale_entry] }, CurrentWallpaper::NoFile)),
    );
    assert_eq!(after_takeover.gallery.catalogue.images, vec![authoritative]);
    assert_eq!(after_takeover.gallery.current, Some(PathBuf::from("/images/leader.jpg")));
}

#[test]
fn a_failed_reload_keeps_what_is_there() {
    let mut follower = follower();
    follower.peers.non_leader_reload_generation = 1;
    follower.gallery.catalogue.images = vec![entry_in_memory("20260807", "Kept_ROW1")];
    follower.gallery.current = Some(PathBuf::from("/images/kept.jpg"));
    let before = follower.clone();
    follower.finish_non_leader_reload(1, Err("join failed".to_owned()));
    assert_eq!(follower, before);
}

/// The entries of a catalogue, each with its file where it should be.
fn found(catalogue: &Catalogue) -> Vec<FoundEntry> {
    let there = |entry: &ImageEntry| FoundEntry {
        entry: entry.clone(),
        names_own_file: true,
        is_file: true,
    };
    catalogue.images.iter().map(there).collect()
}

/// Restores over a download folder that is there.
fn restore(found: Vec<FoundEntry>, provenance: Provenance) -> StartupRestore {
    restore_catalogue(found, provenance, &PathBuf::from("/imgs"), true)
}

#[test]
fn restore_catalogue_drops_entries_whose_files_vanished() {
    let gone = entry_in_memory("20260806", "Gone_ROW1");
    let kept = entry_in_memory("20200807", "Kept_ROW2");
    let mut entries = found(&Catalogue { images: vec![gone, kept.clone()] });
    entries[0].is_file = false;
    let startup = restore(entries, Provenance::Loaded);
    assert_eq!(startup.restore.catalogue.images, vec![kept], "however old it is");
    assert_eq!(startup.restore.provenance, Provenance::Loaded);
    assert!(startup.save, "the sweep is persisted");
    assert!(startup.sweep);
}

#[test]
fn restore_catalogue_of_valid_json_pointing_at_nothing_is_empty() {
    let gone = entry_in_memory("20260807", "Gone_ROW1");
    let mut entries = found(&Catalogue { images: vec![gone] });
    entries[0].is_file = false;
    let startup = restore(entries, Provenance::Loaded);
    assert!(startup.restore.catalogue.images.is_empty());
}

#[test]
fn restore_catalogue_sweeps_cache_leftovers_no_prune_can_name() {
    let kept = entry_in_memory("20260807", "Kept_ROW1");
    let startup = restore(found(&Catalogue { images: vec![kept.clone()] }), Provenance::Loaded);
    assert_eq!(startup.restore.catalogue.images, vec![kept]);
    assert!(!startup.save, "nothing was dropped");
    assert!(startup.sweep, "the cache is swept all the same");
}

#[test]
fn restore_catalogue_survives_a_download_folder_that_is_not_there() {
    let stored = Catalogue {
        images: vec![
            entry_in_memory("20260806", "One_ROW1"),
            entry_in_memory("20260807", "Two_ROW2"),
        ],
    };
    let mut entries = found(&stored);
    for entry in &mut entries {
        entry.is_file = false;
    }
    let startup =
        restore_catalogue(entries, Provenance::Loaded, &PathBuf::from("/imgs"), false);
    assert_eq!(startup.restore.catalogue, stored, "an absent folder is not a hollow one");
    assert!(!startup.save, "nothing empty may be persisted over the history");
}

#[test]
fn restore_catalogue_scrubs_tampered_entries_without_deleting_files() {
    let kept = entry_in_memory("20260807", "Kept_ROW1");
    let mut hostile = kept.clone();
    hostile.urlbase = "/th?id=OHR.Evil_ROW2".to_owned();
    hostile.fullstartdate = "202001010700".to_owned();
    hostile.filename = PathBuf::from("/home/me/important.pdf");
    let renamed = entry_in_memory("20260808", "Other_ROW3");
    let mut entries = found(&Catalogue { images: vec![hostile, kept.clone(), renamed] });
    entries[2].names_own_file = false;
    // The folder that was found decides, whatever the path.
    let folder = PathBuf::from("/imgs");
    assert!(outlives(&entries[0], &Some(folder.clone()), &folder));
    assert!(!outlives(&entries[1], &Some(PathBuf::from("/home/me")), &folder));
    assert!(!outlives(&entries[1], &None, &folder));
    let startup = restore(entries, Provenance::Loaded);
    assert_eq!(startup.restore.catalogue.images, vec![kept]);
    assert!(startup.save, "the scrub is persisted");
}

#[test]
fn a_restore_follows_the_role() {
    let loaded = CatalogueRestore {
        catalogue: Catalogue { images: vec![entry_in_memory("20260807", "Kept_ROW1")] },
        provenance: Provenance::Rebuilt,
    };
    assert_eq!(
        restore_catalogue_for_role(loaded.clone(), false),
        RoleRestore::ReadOnly(loaded.clone())
    );
    assert_eq!(
        restore_catalogue_for_role(loaded.clone(), true),
        RoleRestore::Sift(loaded.clone())
    );
    let untouched = restore(found(&loaded.catalogue), Provenance::Rebuilt);
    assert!(!untouched.save);
    assert_eq!(untouched.restore, loaded);
    let reload = read_non_leader_reload(loaded.clone(), CurrentWallpaper::Unknown);
    assert_eq!(reload.provenance, Provenance::Rebuilt);
    assert_eq!(reload.catalogue, loaded.catalogue);
    assert_eq!(reload.live, CurrentWallpaper::Unknown);
}

#[test]
fn peer_refresh_outcomes_settle_requester_status_and_request_reload() {
    for (outcome, expected) in [
        (PeerRefreshOutcome::Success, "success"),
        (PeerRefreshOutcome::Network, "network"),
        (PeerRefreshOutcome::Disk, "disk"),
    ] {
        let mut window = peer_follower(4);
        let timeout_generation = window.peers.peer_refresh_timeout_generation;
        window.update(Message::CoordinationUpdated(mailbox(4, 4, outcome)), 1_700);

        assert!(!window.work.refresh_pending);
        assert_eq!(window.peers.requested_peer_refresh, None);
        assert!(window.peers.peer_refresh_timeout_generation > timeout_generation);
        assert_eq!(window.peers.non_leader_reload_generation, 1);
        match expected {
            "success" => {
                assert_eq!(window.work.last_updated, Some(1_700));
                assert!(window.work.last_error.is_none());
            }
            "network" => {
                assert!(matches!(window.work.last_error, Some(RefreshError::Network(_))))
            }
            "disk" => assert!(matches!(window.work.last_error, Some(RefreshError::Disk(_)))),
            _ => unreachable!(),
        }
    }
}

#[test]
fn covering_completion_settles_multiple_requesters() {
    let mut first = peer_follower(7);
    let mut second = peer_follower(9);
    for window in [&mut first, &mut second] {
        window.update(
            Message::CoordinationUpdated(mailbox(9, 9, PeerRefreshOutcome::Success)),
            0,
        );
        assert!(!window.work.refresh_pending);
        assert_eq!(window.peers.non_leader_reload_generation, 1);
    }
}

/// A request is consumed, and the display read for it, at once.
fn consume_over(window: &mut Window, live: CurrentWallpaper) -> usize {
    let mut units: usize = 0;
    for effect in window.consume_peer_refresh_request().effects {
        if let Effect::ReadLiveForPeer { request } = effect {
            units += window.finish_peer_refresh_live_read(request, live.clone()).units();
        }
    }
    units
}

#[test]
fn leader_coalesces_requests_arriving_during_one_fetch() {
    let mut window = Window::default();
    window.peers.coordination.refresh_request = 2;

    assert_eq!(consume_over(&mut window, CurrentWallpaper::NoFile), 1);
    assert!(window.work.refresh_pending);
    assert_eq!(window.peers.peer_refresh_request, Some(2));

    window.peers.coordination.refresh_request = 5;
    let second = consume_over(&mut window, CurrentWallpaper::NoFile);
    assert_eq!(second, 0, "no second fetch is started");
    assert!(window.work.refresh_pending);
    assert_eq!(window.peers.peer_refresh_request, Some(5));
}

#[test]
fn coordination_update_reads_live_wallpaper_off_update_and_guards_completion() {
    let mut window = Window::default();
    let read = window.update(
        Message::CoordinationUpdated(CoordinationConfig {
            refresh_request: 3,
            ..CoordinationConfig::default()
        }),
        0,
    );
    assert_eq!(read.units(), 1);
    assert_eq!(read.effects, vec![Effect::ReadLiveForPeer { request: 3 }]);
    assert_eq!(window.peers.peer_refresh_request, Some(3));
    assert_eq!(window.peers.peer_refresh_live_read, Some(3));
    assert!(!window.work.refresh_pending, "update only schedules the live read");

    let refresh = window.update(
        Message::PeerRefreshLiveRead { request: 3, live: CurrentWallpaper::NoFile },
        0,
    );
    assert!(window.work.refresh_pending);
    assert_eq!(window.peers.peer_refresh_request, Some(3));
    assert_eq!(refresh.units(), 1);
    assert_eq!(window.peers.peer_refresh_live_read, None);

    let mut stale = Window::default();
    stale.peers.coordination.refresh_request = 4;
    let late = stale.update(
        Message::PeerRefreshLiveRead { request: 3, live: CurrentWallpaper::NoFile },
        0,
    );
    assert_eq!(late.units(), 0);
    assert!(!stale.work.refresh_pending);
    stale.role.leadership = Leadership::forced(false);
    let demoted = stale.update(
        Message::PeerRefreshLiveRead { request: 4, live: CurrentWallpaper::NoFile },
        0,
    );
    assert_eq!(demoted.units(), 0);
}

#[test]
fn duplicate_live_reads_and_failed_ack_never_refetch_a_covered_request() {
    let mut window = Window::default();
    window.peers.coordination.refresh_request = 7;
    assert_eq!(window.consume_peer_refresh_request().units(), 1);
    assert_eq!(
        window.consume_peer_refresh_request().units(),
        0,
        "one live read per outstanding request"
    );

    let first = window.update(
        Message::PeerRefreshLiveRead { request: 7, live: CurrentWallpaper::NoFile },
        0,
    );
    assert_eq!(first.units(), 1);
    assert!(window.work.refresh_pending);
    let completion = window.finish_refresh_over(
        Err(RefreshError::Network("offline".into())),
        CurrentWallpaper::NoFile,
    );
    assert_eq!(completion.units(), 1, "without a mailbox there is only the retry");
    assert_eq!(window.peers.peer_refresh_covered, 7);
    assert!(!window.work.refresh_pending);

    window.peers.coordination_context = true;
    assert_eq!(
        window.record_peer_refresh_completion(7, PeerRefreshOutcome::Network).effects,
        vec![Effect::RecordCompletion {
            completion: PeerRefreshCompletion {
                request: 7,
                outcome: PeerRefreshOutcome::Network,
            },
        }]
    );
    window.update(
        Message::PeerRefreshCompletionWritten {
            completion: PeerRefreshCompletion {
                request: 7,
                outcome: PeerRefreshOutcome::Network,
            },
            result: Err("the mailbox is gone".to_owned()),
        },
        0,
    );
    assert_eq!(window.peers.coordination.refresh_completion.request, 0);
    let late = window.update(
        Message::PeerRefreshLiveRead { request: 7, live: CurrentWallpaper::NoFile },
        0,
    );
    assert_eq!(late.units(), 0, "delayed duplicate completion is stale");
    assert_eq!(window.consume_peer_refresh_request().units(), 0);
    assert!(!window.work.refresh_pending);
}

#[test]
fn request_reserved_during_live_read_is_acknowledged_by_intervening_refresh() {
    let mut window = Window::default();
    window.peers.coordination_context = true;
    window.peers.coordination.refresh_request = 11;
    let delayed_read = window.consume_peer_refresh_request();
    assert_eq!(delayed_read.units(), 1);
    assert_eq!(window.peers.peer_refresh_request, Some(11));

    let intervening = window.start_refresh_over(CurrentWallpaper::NoFile);
    assert_eq!(intervening.units(), 1);
    assert!(window.work.refresh_pending);
    let completion_tasks = window.finish_refresh_over(
        Err(RefreshError::Network("offline".into())),
        CurrentWallpaper::NoFile,
    );
    assert_eq!(completion_tasks.units(), 2, "retry timer plus acknowledgement write");
    assert_eq!(window.peers.peer_refresh_request, None);
    assert_eq!(window.peers.peer_refresh_covered, 11);

    assert_eq!(
        window.finish_peer_refresh_live_read(11, CurrentWallpaper::NoFile).units(),
        0,
        "late live read cannot start a duplicate fetch"
    );
    assert!(!window.work.refresh_pending);
}

#[test]
fn late_coordination_snapshots_never_regress_or_repeat_leader_work() {
    let mut window = Window::default();
    let newer = CoordinationConfig {
        refresh_request: 10,
        refresh_completion: PeerRefreshCompletion {
            request: 10,
            outcome: PeerRefreshOutcome::Success,
        },
        apply_notice: Some(PeerApplyNotice { generation: 5, path: PathBuf::from("/new.jpg") }),
    };
    let first = window.update(Message::CoordinationUpdated(newer.clone()), 0);
    assert_eq!(first.units(), 1, "only apply validation is armed");
    assert!(!window.work.refresh_pending);

    let stale = CoordinationConfig {
        refresh_request: 9,
        refresh_completion: PeerRefreshCompletion {
            request: 9,
            outcome: PeerRefreshOutcome::Network,
        },
        apply_notice: Some(PeerApplyNotice { generation: 4, path: PathBuf::from("/old.jpg") }),
    };
    let duplicate = window.update(Message::CoordinationUpdated(stale), 0);
    assert_eq!(duplicate.units(), 0, "late evidence arms no duplicate work");
    assert_eq!(window.peers.coordination, newer);
    assert_eq!(window.peers.peer_apply_notice_generation, 5);
    assert!(!window.work.refresh_pending);
}

#[test]
fn follower_config_confirmation_is_generation_guarded_and_not_inline() {
    let mut window = follower();
    window.settings.config_context = true;
    let first = AppletConfig { retention_days: 30, ..window.settings.config };
    let task = window.update(Message::ConfigUpdated(first), 0);
    assert_eq!(task.units(), 1);
    assert_eq!(window.settings.config.retention_days, 8, "payload is not read inline");
    let first_generation = window.settings.config_confirmation_generation;

    let second = AppletConfig { retention_days: 3, ..first };
    window.update(Message::ConfigUpdated(second), 0);
    let second_generation = window.settings.config_confirmation_generation;
    window.update(
        Message::ConfigConfirmed {
            generation: first_generation,
            was_active_leader: false,
            config: first,
        },
        0,
    );
    assert_eq!(window.settings.config.retention_days, 8, "stale completion dropped");
    window.update(
        Message::ConfigConfirmed {
            generation: second_generation,
            was_active_leader: false,
            config: second,
        },
        0,
    );
    assert_eq!(window.settings.config.retention_days, 3);
}

#[test]
fn stale_completion_and_timeout_cannot_clear_a_newer_request() {
    let mut window = peer_follower(8);
    window.update(
        Message::CoordinationUpdated(mailbox(8, 7, PeerRefreshOutcome::Success)),
        0,
    );
    assert!(window.work.refresh_pending, "non-covering completion is ignored");

    window.update(Message::PeerRefreshTimeout { generation: 7, request: 7 }, 0);
    assert!(window.work.refresh_pending, "stale timeout is ignored");
    assert_eq!(window.peers.requested_peer_refresh, Some(8));
    assert_eq!(window.peers.non_leader_reload_generation, 0);
}

#[test]
fn completion_observed_before_request_write_result_still_settles() {
    let mut window = follower();
    window.peers.peer_refresh_write_pending = true;
    window.peers.coordination = mailbox(3, 3, PeerRefreshOutcome::Network);

    window.finish_peer_refresh_request(Ok(3), 0);
    assert!(!window.work.refresh_pending);
    assert_eq!(window.peers.requested_peer_refresh, None);
    assert!(matches!(window.work.last_error, Some(RefreshError::Network(_))));
    assert_eq!(window.peers.non_leader_reload_generation, 1);
}

#[test]
fn current_timeout_clears_pending_and_requests_reload_without_local_work() {
    let mut window = peer_follower(6);
    window.update(Message::PeerRefreshTimeout { generation: 6, request: 6 }, 0);
    assert!(!window.work.refresh_pending);
    assert_eq!(window.peers.requested_peer_refresh, None);
    assert_eq!(window.peers.non_leader_reload_generation, 1);
    assert_eq!(window.timers.timer_generation, 0, "no local refresh was armed");
}

#[test]
fn a_failed_request_write_never_shows_pending() {
    let mut window = follower_with_mailbox();
    let ask = window.update(Message::RefreshNow, 0);
    assert_eq!(ask.effects, vec![Effect::RequestPeerRefresh]);
    assert!(window.peers.peer_refresh_write_pending);
    assert!(!window.work.refresh_pending);
    assert_eq!(window.update(Message::RefreshNow, 0).units(), 0, "asked already");
    window.update(Message::PeerRefreshRequested(Err("read-only".to_owned())), 0);
    assert!(!window.peers.peer_refresh_write_pending);
    assert!(!window.work.refresh_pending);
    assert_eq!(window.peers.requested_peer_refresh, None);
}

#[test]
fn a_follower_apply_is_noticed_by_the_leader() {
    let mut follower = follower_with_mailbox();
    let path = PathBuf::from("/imgs/picked.jpg");
    let apply = follower.update(Message::ApplyImage(path.clone()), 0);
    assert_eq!(
        apply.calls,
        vec![Call::Apply { path: path.clone(), why: ApplyReason::Manual }]
    );
    let notice = follower.update(
        Message::Applied {
            path: path.clone(),
            why: ApplyReason::Manual,
            outcome: ApplyOutcome::Applied,
        },
        0,
    );
    assert_eq!(follower.gallery.current, Some(path.clone()));
    assert_eq!(notice.effects, vec![Effect::WriteApplyNotice { path: path.clone() }]);
    let written = PeerApplyNotice { generation: 1, path: path.clone() };
    follower.update(Message::PeerApplyNoticeWritten(Ok(written.clone())), 0);
    assert_eq!(follower.peers.coordination.apply_notice, Some(written.clone()));

    let mut leader = Window::default();
    let incoming =
        CoordinationConfig { apply_notice: Some(written), ..CoordinationConfig::default() };
    let look = leader.update(Message::CoordinationUpdated(incoming.clone()), 0);
    assert_eq!(look.effects, vec![Effect::ValidateApply { generation: 1 }]);
    assert_eq!(leader.gallery.current, None, "the notice itself is not believed");
    leader.update(
        Message::PeerApplyValidated { generation: 1, live: file("/imgs/displayed.jpg") },
        0,
    );
    assert_eq!(leader.gallery.current, Some(PathBuf::from("/imgs/displayed.jpg")));
    assert_eq!(leader.update(Message::CoordinationUpdated(incoming), 0).units(), 0);
}

#[test]
fn a_follower_apply_that_failed_prunes_nothing() {
    let mut window = follower();
    window.gallery.catalogue.images = vec![entry_in_memory("20260807", "Gone_ROW1")];
    window.work.thumbnail_pass_pending = true;
    let task = window.on_apply_failure(true);
    assert!(task.calls.is_empty() && task.effects.is_empty());
    let task = window.finish_thumbnail_pass(CurrentWallpaper::NoFile);
    assert!(task.calls.is_empty() && task.effects.is_empty());
    assert!(!window.work.thumbnail_pass_pending);
}

#[test]
fn merging_mailboxes_keeps_the_newest_of_each_counter() {
    let current = CoordinationConfig {
        refresh_request: 4,
        refresh_completion: PeerRefreshCompletion {
            request: 9,
            outcome: PeerRefreshOutcome::Disk,
        },
        apply_notice: Some(PeerApplyNotice { generation: 2, path: PathBuf::from("/two.jpg") }),
    };
    let incoming = CoordinationConfig {
        refresh_request: 6,
        refresh_completion: PeerRefreshCompletion {
            request: 8,
            outcome: PeerRefreshOutcome::Success,
        },
        apply_notice: Some(PeerApplyNotice { generation: 3, path: PathBuf::from("/three.jpg") }),
    };
    let mut merged = current.clone();
    merge_coordination(&mut merged, incoming.clone());
    assert_eq!(merged.refresh_request, 6);
    assert_eq!(merged.refresh_completion, current.refresh_completion);
    assert_eq!(merged.apply_notice, incoming.apply_notice);
    let settled = merged.clone();
    merge_coordination(&mut merged, incoming);
    assert_eq!(merged, settled);
    merge_coordination(&mut merged, current);
    assert_eq!(merged, settled);
}
