use daymural::catalogue::{Catalogue, CatalogueRestore, ImageEntry, Provenance};
use daymural::coordination::{
    CoordinationConfig, PeerApplyNotice, PeerRefreshCompletion, PeerRefreshOutcome,
};
use daymural::effect::{Call, Effect, Task};
use daymural::message::Message;
use daymural::schedule::RefreshDelay;
use daymural::settings::{AccentPair, AccentSnapshot, AppletConfig, Choices, Rgb};
use daymural::takeover::{read_hydration, Boot};
use daymural::wallpaper::{ColdStart, CurrentWallpaper, LiveFile};
use daymural::window::{LeaderReadiness, Leadership, LeadershipHydration, Window};
use std::path::PathBuf;

fn entry_in_memory(startdate: &str, name: &str) -> ImageEntry {
    ImageEntry {
        urlbase: format!("/th?id=OHR.{name}"),
        startdate: startdate.to_owned(),
        fullstartdate: format!("{startdate}0700"),
        title: format!("Title {name}"),
        copyright: format!("Copyright {name}"),
        copyrightlink: String::new(),
        filename: PathBuf::from(format!("/imgs/{startdate}-{name}_UHD.jpg")),
    }
}

fn window_with_images(count: usize) -> Window {
    let mut window = Window::default();
    window.gallery.catalogue.images = (0..count)
        .map(|i| entry_in_memory(&format!("2026080{}", i + 1), &format!("Img{i}_ROW{i}")))
        .collect();
    window
}

fn hydrating() -> Window {
    let mut window = Window::default();
    window.role.leadership = Leadership::forced(true);
    window.role.leader_readiness = LeaderReadiness::Hydrating;
    window
}

fn follower() -> Window {
    let mut window = Window::default();
    window.role.leadership = Leadership::forced(false);
    window
}

fn hydration(
    config: AppletConfig,
    coordination: CoordinationConfig,
    live: CurrentWallpaper,
) -> LeadershipHydration {
    LeadershipHydration {
        config_context: false,
        coordination_context: false,
        config,
        coordination,
        catalogue: Catalogue::default(),
        provenance: Provenance::Loaded,
        live,
    }
}

fn live_file(path: &str) -> CurrentWallpaper {
    CurrentWallpaper::File(LiveFile { path: PathBuf::from(path), ours: false })
}

fn requests(request: u64, completed: u64) -> CoordinationConfig {
    CoordinationConfig {
        refresh_request: request,
        refresh_completion: PeerRefreshCompletion {
            request: completed,
            outcome: PeerRefreshOutcome::Success,
        },
        apply_notice: None,
    }
}

fn refreshes(task: &Task) -> usize {
    task.effects.iter().filter(|effect| matches!(effect, Effect::Refresh { .. })).count()
}

#[test]
fn default_window_is_a_ready_leader() {
    let mut window = Window::default();
    assert!(window.role.leadership.is_leader());
    assert_eq!(window.role.leader_readiness, LeaderReadiness::Ready);
    assert!(window.is_active_leader());
    window.role.leader_readiness = LeaderReadiness::Hydrating;
    assert!(!window.is_active_leader(), "owning the lock is inert until hydration is complete");
}

#[test]
fn startup_arms_only_duties_owned_by_the_instance() {
    let mut leader = Window::default();
    let leader_task = leader.arm_initial_duties(CurrentWallpaper::NoFile);
    assert_eq!(leader.timers.timer_generation, 1, "ordinary refresh timer armed");
    assert_eq!(leader.timers.shuffle_generation, 1, "shuffle state synchronized");
    assert!(leader.work.thumbnail_pass_pending, "startup producer armed");
    assert!(!leader.work.refresh_pending);
    assert_eq!(leader.role.leadership_generation, 0);
    assert_eq!(leader_task.units(), 2, "refresh timer plus thumbnail pass");

    let mut follower = follower();
    let follower_task = follower.arm_initial_duties(CurrentWallpaper::NoFile);
    assert_eq!(follower.role.leadership_generation, 1);
    assert_eq!(follower.timers.timer_generation, 0);
    assert_eq!(follower.timers.shuffle_generation, 0);
    assert!(!follower.timers.shuffle_armed);
    assert!(!follower.work.thumbnail_pass_pending);
    assert!(!follower.work.refresh_pending);
    assert_eq!(follower_task.units(), 1, "takeover retry only");
}

#[test]
fn initial_leader_consumes_outstanding_peer_refresh_beside_the_thumbnail_pass() {
    let mut window = Window::default();
    window.peers.coordination = requests(7, 5);

    let task = window.arm_initial_duties(CurrentWallpaper::NoFile);

    assert_eq!(window.peers.peer_refresh_request, Some(7));
    assert!(window.work.refresh_pending, "peer request starts the fetch now");
    assert!(
        window.work.thumbnail_pass_pending,
        "the startup pass is never replaced by a refresh"
    );
    assert_eq!(window.timers.timer_generation, 1, "ordinary timer also remains armed");
    assert_eq!(task.units(), 3, "timer, thumbnail pass and immediate refresh");
}

#[test]
fn a_rebuilt_restore_starts_a_repair_refresh_beside_the_pass() {
    let mut window = window_with_images(1);
    window.gallery.metadata_repair_due = true;

    let task = window.arm_initial_duties(CurrentWallpaper::NoFile);

    assert!(window.work.refresh_pending, "repair refresh starts immediately");
    assert!(window.work.thumbnail_pass_pending, "pass armed regardless");
    assert_eq!(window.peers.peer_refresh_request, None, "no peer to settle");
    assert!(!window.gallery.metadata_repair_due, "consumed by the arming");
    assert_eq!(task.units(), 3, "timer, thumbnail pass and repair refresh");

    // An empty rebuild has nothing to repair.
    let mut empty = Window::default();
    empty.gallery.metadata_repair_due = true;
    let task = empty.arm_initial_duties(CurrentWallpaper::NoFile);
    assert!(!empty.work.refresh_pending);
    assert!(empty.work.thumbnail_pass_pending);
    assert_eq!(task.units(), 2, "timer plus thumbnail pass");

    // A loaded catalogue needs no repair either.
    let mut loaded = window_with_images(1);
    let task = loaded.arm_initial_duties(CurrentWallpaper::NoFile);
    assert!(!loaded.work.refresh_pending);
    assert_eq!(task.units(), 2);
}

#[test]
fn a_repair_refresh_coalesces_with_an_outstanding_peer_request() {
    let mut window = window_with_images(2);
    window.gallery.metadata_repair_due = true;
    window.peers.coordination = requests(3, 0);

    let task = window.arm_initial_duties(CurrentWallpaper::NoFile);

    assert!(window.work.refresh_pending);
    assert_eq!(window.peers.peer_refresh_request, Some(3));
    assert!(window.work.thumbnail_pass_pending);
    assert_eq!(task.units(), 3, "exactly one refresh beside the pass");
    assert_eq!(refreshes(&task), 1);
}

#[test]
fn a_takeover_over_a_rebuilt_catalogue_starts_the_repair_refresh() {
    let rebuilt = LeadershipHydration {
        catalogue: Catalogue { images: vec![entry_in_memory("20260820", "Rebuilt_ROW1")] },
        provenance: Provenance::Rebuilt,
        ..hydration(
            AppletConfig::default(),
            CoordinationConfig::default(),
            CurrentWallpaper::NoFile,
        )
    };
    let mut window = hydrating();
    let duties = window.finish_leadership_hydration(0, 0, Ok(rebuilt.clone()));
    assert!(window.is_active_leader());
    assert!(window.work.refresh_pending, "repair refresh starts at readiness");
    assert!(window.work.thumbnail_pass_pending, "beside the pass, never instead");
    assert!(!window.gallery.metadata_repair_due, "consumed by the arming");
    assert_eq!(window.peers.peer_refresh_request, None);
    assert_eq!(duties.units(), 3, "timer, thumbnail pass and repair refresh");

    // The same snapshot loaded from its record needs no repair.
    let loaded = LeadershipHydration { provenance: Provenance::Loaded, ..rebuilt.clone() };
    let mut window = hydrating();
    let duties = window.finish_leadership_hydration(0, 0, Ok(loaded));
    assert!(window.is_active_leader());
    assert!(!window.work.refresh_pending);
    assert_eq!(duties.units(), 2, "timer plus thumbnail pass");

    // A follower's own request that was still waiting when it took over is
    // covered by the one repair refresh.
    let mut window = hydrating();
    window.peers.requested_peer_refresh = Some(2);
    window.work.refresh_pending = true;
    let waiting = LeadershipHydration { coordination: requests(2, 0), ..rebuilt };
    let duties = window.finish_leadership_hydration(0, 0, Ok(waiting));
    assert!(window.work.refresh_pending);
    assert_eq!(window.peers.requested_peer_refresh, None, "follower state shed");
    assert_eq!(window.peers.peer_refresh_request, Some(2), "covered by the repair");
    assert_eq!(duties.units(), 3, "exactly one refresh");
}

#[test]
fn takeover_adopts_full_disk_state_and_recovers_outstanding_request_once() {
    let snapshot = AccentSnapshot { light: Some(Rgb(1, 2, 3)), dark: None };
    let written = AccentPair { light: Rgb(4, 5, 6), dark: Rgb(7, 8, 9) };
    let config = AppletConfig {
        shuffle_enabled: true,
        shuffle_interval_secs: 1_800,
        retention_days: 30,
        accent_enabled: true,
        accent_snapshot: Some(snapshot),
        accent_last_written: Some(written),
    };
    let coordination = CoordinationConfig {
        refresh_request: 9,
        refresh_completion: PeerRefreshCompletion {
            request: 7,
            outcome: PeerRefreshOutcome::Success,
        },
        apply_notice: Some(PeerApplyNotice {
            generation: 11,
            path: PathBuf::from("/mailbox-evidence.jpg"),
        }),
    };
    let live_path = PathBuf::from("/currently-applied.jpg");
    let mut window = hydrating();
    window.role.leadership_hydration_generation = 3;
    window.role.leadership_state_generation = 5;
    window.gallery.current = Some(PathBuf::from("/stale.jpg"));
    window.peers.requested_peer_refresh = Some(4);
    window.peers.peer_refresh_write_pending = true;
    window.work.refresh_pending = true;
    window.peers.peer_refresh_timeout_generation = 6;
    window.gallery.cold_start = ColdStart::Pending;

    let mut hydrated =
        hydration(config, coordination.clone(), live_file("/currently-applied.jpg"));
    hydrated.catalogue.images.push(entry_in_memory("20260820", "Hydrated_ROW1"));

    let duties = window.finish_leadership_hydration(3, 5, Ok(hydrated));

    assert!(window.is_active_leader());
    assert_eq!(window.settings.config, config, "the complete accent trio is adopted");
    assert_eq!(window.peers.coordination, coordination);
    assert_eq!(window.gallery.current, Some(live_path));
    assert_eq!(window.gallery.catalogue.images.len(), 1);
    assert_eq!(window.peers.requested_peer_refresh, None);
    assert!(!window.peers.peer_refresh_write_pending);
    assert_eq!(window.gallery.cold_start, ColdStart::Done);
    assert!(window.peers.peer_refresh_timeout_generation > 6);
    assert_eq!(window.peers.peer_apply_notice_generation, 11);
    assert_eq!(window.peers.peer_refresh_request, Some(9));
    assert!(window.work.refresh_pending, "the outstanding request is serviced");
    assert!(window.work.thumbnail_pass_pending, "the pass is armed beside the refresh");
    assert_eq!(window.timers.timer_generation, 1, "refresh duty armed once");
    assert_eq!(window.timers.shuffle_generation, 1, "shuffle duty considered once");
    assert_eq!(duties.units(), 3, "timer, thumbnail pass and peer refresh");

    let duplicate = window.finish_leadership_hydration(
        3,
        5,
        Ok(hydration(
            AppletConfig::default(),
            CoordinationConfig::default(),
            CurrentWallpaper::NoFile,
        )),
    );
    assert_eq!(duplicate.units(), 0);
    assert_eq!(window.timers.timer_generation, 1);
    assert_eq!(window.peers.peer_refresh_request, Some(9));
    assert_eq!(
        window.update(Message::LeadershipTick(0), 0).units(),
        0,
        "an active leader drops takeover ticks"
    );
}

#[test]
fn takeover_watcher_events_dirty_snapshot_and_force_one_fresh_read() {
    let original_config = AppletConfig::default();
    let original_coordination = CoordinationConfig::default();
    let mut window = hydrating();
    window.role.leadership_hydration_generation = 4;
    window.role.leadership_state_generation = 8;
    window.settings.config_context = true;
    window.peers.coordination_context = true;

    let changed_config = AppletConfig { accent_enabled: true, ..original_config };
    let changed_coordination = requests(12, 0);
    assert_eq!(window.update(Message::ConfigUpdated(changed_config), 0).units(), 0);
    assert_eq!(window.update(Message::CoordinationUpdated(changed_coordination), 0).units(), 0);
    assert_eq!(window.role.leadership_state_generation, 10);
    assert_eq!(window.settings.config, original_config, "watcher payload is not adopted");
    assert_eq!(window.peers.coordination, original_coordination);

    let reread = window.finish_leadership_hydration(
        4,
        8,
        Ok(hydration(
            AppletConfig::default(),
            CoordinationConfig::default(),
            CurrentWallpaper::NoFile,
        )),
    );
    assert_eq!(reread.units(), 1);
    assert_eq!(window.role.leader_readiness, LeaderReadiness::Hydrating);
    assert_eq!(window.role.leadership_hydration_generation, 5);
    assert_eq!(window.timers.timer_generation, 0, "dirty state cannot arm duties");
}

#[test]
fn stale_failed_and_contextless_takeovers_cannot_arm_from_stale_state() {
    let mut stale = hydrating();
    stale.role.leadership_hydration_generation = 7;
    stale.role.leadership_state_generation = 2;
    let ignored = stale.finish_leadership_hydration(
        6,
        2,
        Ok(hydration(
            AppletConfig::default(),
            CoordinationConfig::default(),
            CurrentWallpaper::NoFile,
        )),
    );
    assert_eq!(ignored.units(), 0);
    assert_eq!(stale.timers.timer_generation, 0);
    assert_eq!(
        stale.finish_leadership_hydration(7, 2, Err("read failed".into())).units(),
        1,
        "a failed blocking read retries later"
    );
    assert_eq!(stale.timers.timer_generation, 0);
    assert_eq!(stale.role.leader_readiness, LeaderReadiness::Hydrating);

    let mut contextless = hydrating();
    contextless.role.leadership_generation = 3;
    assert_eq!(contextless.on_leadership_tick(3).units(), 1);
    assert_eq!(contextless.role.leadership_generation, 4);
    assert_eq!(contextless.timers.timer_generation, 0);
    assert!(!contextless.is_active_leader());
    assert_eq!(
        contextless.on_leadership_tick(3).units(),
        0,
        "a stale retry cannot bypass missing contexts"
    );
}

#[test]
fn a_lock_loser_takes_over_once_and_stays_inert_until_hydrated() {
    let mut window = follower();
    window.role.leadership_generation = 1;
    window.settings.config_context = true;
    window.peers.coordination_context = true;
    window.gallery.cold_start = ColdStart::Pending;

    let tick = window.update(Message::LeadershipTick(1), 0);
    assert_eq!(tick.calls, vec![Call::TryAcquireLeadership]);
    let blocked = window.update(Message::LeadershipTried(false), 0);
    assert!(!window.role.leadership.is_leader());
    assert_eq!(window.role.leadership_generation, 2, "lockout rearms once");
    assert_eq!(blocked.effects, vec![Effect::LeadershipRetry { generation: 2 }]);
    let stale = window.update(Message::LeadershipTick(1), 0);
    assert!(stale.calls.is_empty() && stale.effects.is_empty(), "stale retry is dropped");

    let tick = window.update(Message::LeadershipTick(2), 0);
    assert_eq!(tick.calls, vec![Call::TryAcquireLeadership]);
    let snapshot = window.update(Message::LeadershipTried(true), 0);
    assert!(window.role.leadership.is_leader());
    assert_eq!(window.role.leader_readiness, LeaderReadiness::Hydrating);
    assert!(!window.is_active_leader());
    assert_eq!(
        snapshot.effects,
        vec![Effect::Hydrate {
            generation: 1,
            state_generation: 0,
            config_open: true,
            coordination_open: true,
        }]
    );
    let consumed = window.update(Message::LeadershipTick(2), 0);
    assert!(
        consumed.calls.is_empty() && consumed.effects.is_empty(),
        "the consumed takeover tick cannot arm another snapshot"
    );

    let disk_config = AppletConfig { retention_days: 30, ..AppletConfig::default() };
    let disk_coordination = requests(4, 4);
    let entry = entry_in_memory("20260820", "Takeover_ROW1");
    let read = read_hydration(
        Ok(disk_config),
        &Choices::default(),
        Ok(disk_coordination.clone()),
        CatalogueRestore {
            catalogue: Catalogue { images: vec![entry.clone()] },
            provenance: Provenance::Loaded,
        },
        CurrentWallpaper::File(LiveFile { path: entry.filename.clone(), ours: true }),
    );
    window.update(
        Message::LeadershipHydrated { generation: 1, state_generation: 0, result: read },
        0,
    );
    assert!(window.is_active_leader());
    assert_eq!(window.settings.config, disk_config);
    assert_eq!(window.peers.coordination, disk_coordination);
    assert_eq!(window.gallery.catalogue.images, vec![entry.clone()]);
    assert_eq!(window.gallery.current, Some(entry.filename));
    assert_eq!(window.gallery.cold_start, ColdStart::Done);
    assert_eq!(window.timers.timer_generation, 1);
    assert!(!window.work.refresh_pending, "a loaded catalogue asks for no repair refresh");
}

#[test]
fn a_takeover_opens_missing_contexts_on_retry() {
    let mut window = hydrating();
    let retry = window.finish_leadership_hydration(
        0,
        0,
        Err("transient context creation failure".into()),
    );
    assert_eq!(retry.effects, vec![Effect::LeadershipRetry { generation: 1 }]);
    assert!(!window.is_active_leader());
    let again = window.update(Message::LeadershipTick(1), 0);
    assert_eq!(
        again.effects,
        vec![Effect::Hydrate {
            generation: 1,
            state_generation: 0,
            config_open: false,
            coordination_open: false,
        }]
    );
    let read = read_hydration(
        Ok(AppletConfig { retention_days: 30, ..AppletConfig::default() }),
        &Choices::default(),
        Ok(requests(6, 6)),
        CatalogueRestore { catalogue: Catalogue::default(), provenance: Provenance::Rebuilt },
        CurrentWallpaper::NoFile,
    );
    let duties = window.update(
        Message::LeadershipHydrated { generation: 1, state_generation: 0, result: read },
        0,
    );
    assert!(window.is_active_leader());
    assert!(window.settings.config_context);
    assert!(window.peers.coordination_context);
    assert_eq!(window.settings.config.retention_days, 30);
    assert_eq!(window.peers.coordination.refresh_request, 6);
    assert_eq!(window.gallery.cold_start, ColdStart::Pending, "nothing there, nothing shown");
    assert_eq!(duties.units(), 2, "recovered leader arms its duties");
}

#[test]
fn a_takeover_snapshot_needs_settings_and_mailbox() {
    let restore =
        CatalogueRestore { catalogue: Catalogue::default(), provenance: Provenance::Loaded };
    let no_settings = read_hydration(
        Err("settings".into()),
        &Choices::default(),
        Err("mailbox".into()),
        restore.clone(),
        CurrentWallpaper::NoFile,
    );
    assert_eq!(no_settings.unwrap_err(), "settings");
    let no_mailbox = read_hydration(
        Ok(AppletConfig::default()),
        &Choices::default(),
        Err("mailbox".into()),
        restore,
        CurrentWallpaper::NoFile,
    );
    assert_eq!(no_mailbox.unwrap_err(), "mailbox");
}

#[test]
fn a_boot_takes_over_what_the_shell_found() {
    let entry = entry_in_memory("20260820", "Boot_ROW1");
    let boot = Boot {
        leadership: Leadership::forced(true),
        config: AppletConfig { accent_enabled: true, ..AppletConfig::default() },
        config_context: true,
        choices: Choices::default(),
        coordination: requests(3, 3),
        coordination_context: true,
        accent_handles: true,
        restore: CatalogueRestore {
            catalogue: Catalogue { images: vec![entry.clone()] },
            provenance: Provenance::Loaded,
        },
        live: CurrentWallpaper::File(LiveFile { path: entry.filename.clone(), ours: true }),
        poke_config: true,
    };
    let (window, task) = Window::init(boot);
    assert!(window.is_active_leader());
    assert_eq!(window.gallery.current, Some(entry.filename.clone()));
    assert_eq!(window.gallery.cold_start, ColdStart::Done);
    assert_eq!(window.peers.peer_refresh_covered, 3);
    assert!(task.calls.is_empty());
    assert_eq!(
        task.effects[0],
        Effect::RefreshTimer {
            generation: 1,
            delay: RefreshDelay::AfterPublication(Some("202608200700".into())),
        }
    );
    assert!(matches!(task.effects[1], Effect::ThumbnailPass { .. }));
    assert_eq!(task.effects[2], Effect::ComputeAccent { source: entry.filename });
    assert_eq!(task.units(), 3);
}

#[test]
fn an_empty_boot_owes_a_cold_start() {
    let boot = Boot {
        leadership: Leadership::forced(false),
        config: AppletConfig::default(),
        config_context: false,
        choices: Choices::default(),
        coordination: CoordinationConfig::default(),
        coordination_context: false,
        accent_handles: false,
        restore: CatalogueRestore {
            catalogue: Catalogue::default(),
            provenance: Provenance::Rebuilt,
        },
        live: CurrentWallpaper::Unknown,
        poke_config: false,
    };
    let (window, task) = Window::init(boot);
    assert_eq!(window.gallery.cold_start, ColdStart::Pending);
    assert_eq!(window.gallery.current, None);
    assert_eq!(task.effects, vec![Effect::LeadershipRetry { generation: 1 }]);
}

#[test]
fn raw_settings_on_disk_start_as_supported_ones() {
    let raw = AppletConfig { retention_days: 1, ..AppletConfig::default() };
    let restore =
        CatalogueRestore { catalogue: Catalogue::default(), provenance: Provenance::Loaded };
    let choices = Choices { intervals: vec![86_400], retentions: vec![8, 30] };
    let boot = Boot {
        leadership: Leadership::forced(true),
        config: raw,
        config_context: true,
        choices: choices.clone(),
        coordination: CoordinationConfig::default(),
        coordination_context: true,
        accent_handles: false,
        restore: restore.clone(),
        live: CurrentWallpaper::NoFile,
        poke_config: false,
    };
    let (window, _) = Window::init(boot);
    assert_eq!(window.settings.config, AppletConfig::default());
    assert_eq!(window.settings.choices, choices);
    let read = read_hydration(
        Ok(raw),
        &choices,
        Ok(CoordinationConfig::default()),
        restore,
        CurrentWallpaper::NoFile,
    );
    assert_eq!(read.unwrap().config, AppletConfig::default());
}
