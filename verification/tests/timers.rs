use daymural::accent::run_lock_poke;
use daymural::catalogue::ImageEntry;
use daymural::effect::{Call, Effect, LiveUse, Task};
use daymural::fetch::{RefreshBatch, RefreshError};
use daymural::message::{LockEvent, Message};
use daymural::schedule::{
    download_horizon, next_generation, retention_reduced, RefreshDelay, ERROR_RETRY_SECS,
};
use daymural::settings::AppletConfig;
use daymural::timers::LOCK_POKE_RUNGS;
use daymural::wallpaper::CurrentWallpaper;
use daymural::window::{Leadership, Window};
use std::path::PathBuf;

fn entry_in_memory(startdate: &str, name: &str) -> ImageEntry {
    ImageEntry {
        urlbase: format!("/th?id=OHR.{name}"),
        startdate: startdate.to_owned(),
        fullstartdate: format!("{startdate}0700"),
        title: format!("Title {name}"),
        copyright: "© Someone".to_owned(),
        copyrightlink: "https://example.com".to_owned(),
        filename: PathBuf::from(format!("/imgs/{startdate}-{name}_UHD.jpg")),
    }
}

fn window_with_images(count: usize) -> Window {
    let mut window = Window::default();
    for i in 0..count {
        window
            .gallery
            .catalogue
            .images
            .push(entry_in_memory(&format!("2026080{i}"), &format!("N{i}_ROW1")));
    }
    window
}

fn follower() -> Window {
    let mut window = Window::default();
    window.role.leadership = Leadership::forced(false);
    window
}

/// Hands every reading of the display over as showing no file at all.
fn read_display(window: &mut Window, task: Task) -> Task {
    let mut effects = task.effects;
    for call in task.calls {
        if let Call::ReadLive(purpose) = call {
            let live = CurrentWallpaper::NoFile;
            effects.extend(window.update(Message::LiveRead { purpose, live }, 0).effects);
        }
    }
    Task { calls: Vec::new(), effects }
}

fn send(window: &mut Window, message: Message) -> Task {
    let task = window.update(message, 0);
    read_display(window, task)
}

#[test]
fn stale_refresh_ticks_are_ignored() {
    let mut window = Window::default();
    // Arm once: the pending timer now carries generation 1.
    window.schedule_refresh(RefreshDelay::Seconds(3600));
    let armed = window.timers.timer_generation;

    // A tick from a timer that a reschedule already replaced must not start
    // a fetch.
    send(&mut window, Message::RefreshDue(armed - 1));
    assert!(!window.work.refresh_pending);

    send(&mut window, Message::RefreshDue(armed));
    assert!(window.work.refresh_pending);

    // And a second trigger while one is in flight is debounced.
    window.timers.timer_generation = armed;
    let second = send(&mut window, Message::RefreshNow);
    assert!(window.work.refresh_pending);
    assert_eq!(second.units(), 0);
}

#[test]
fn stale_shuffle_ticks_are_ignored() {
    let mut window = window_with_images(2);
    window.settings.config.shuffle_enabled = true;
    window.arm_shuffle();
    let armed = window.timers.shuffle_generation;
    assert!(window.timers.shuffle_armed);

    send(&mut window, Message::ShuffleDue(armed - 1));
    assert!(window.timers.shuffle_armed);
    assert_eq!(window.timers.shuffle_generation, armed);
}

#[test]
fn shuffle_runs_only_while_enabled_and_with_two_images() {
    // Enabled but nothing to rotate through: nothing armed.
    let mut window = Window::default();
    send(&mut window, Message::SetShuffleEnabled(true));
    assert!(window.settings.config.shuffle_enabled, "the setting is adopted");
    assert!(!window.timers.shuffle_armed);

    // Two images: the countdown starts.
    let mut window = window_with_images(2);
    send(&mut window, Message::SetShuffleEnabled(true));
    assert!(window.timers.shuffle_armed);

    // Picking an interval restarts it at the new length.
    let generation = window.timers.shuffle_generation;
    let task = send(&mut window, Message::SetShuffleInterval(0));
    assert_eq!(window.settings.config.shuffle_interval_secs, 1_800);
    assert!(window.timers.shuffle_armed);
    assert!(window.timers.shuffle_generation > generation);
    assert_eq!(
        task.effects,
        vec![Effect::ShuffleTimer { generation: generation + 1, interval_secs: 1_800 }]
    );

    // Switching off disarms (and invalidates the pending tick).
    let generation = window.timers.shuffle_generation;
    send(&mut window, Message::SetShuffleEnabled(false));
    assert!(!window.timers.shuffle_armed);
    assert!(window.timers.shuffle_generation > generation);
}

#[test]
fn config_updates_normalize_and_restart_the_shuffle_countdown() {
    let mut window = window_with_images(2);
    window.settings.config.shuffle_enabled = true;
    window.arm_shuffle();
    let generation = window.timers.shuffle_generation;

    // An external edit arrives raw: an unsupported retention must be snapped
    // before it can drive prune or fetch, and a changed interval restarts the
    // countdown at the new length.
    let external = AppletConfig {
        shuffle_enabled: true,
        shuffle_interval_secs: 3_600,
        retention_days: 1,
        ..AppletConfig::default()
    };
    let task = send(&mut window, Message::ConfigUpdated(external));
    assert_eq!(
        window.settings.config.retention_days,
        AppletConfig::default().retention_days,
        "a hand-edited retention must normalize before it is adopted"
    );
    assert!(task.calls.is_empty(), "nothing is reduced, so nothing is pruned");
    assert_eq!(window.settings.config.shuffle_interval_secs, 3_600);
    assert!(window.timers.shuffle_generation > generation);

    // The same config echoed back (our own write) changes nothing.
    let generation = window.timers.shuffle_generation;
    let echoed = window.settings.config;
    send(&mut window, Message::ConfigUpdated(echoed));
    assert_eq!(window.timers.shuffle_generation, generation);
}

#[test]
fn a_failed_refresh_records_the_error_and_backs_off() {
    let mut window = Window::default();
    send(&mut window, Message::RefreshNow);
    assert!(window.work.refresh_pending);
    let generation = window.timers.timer_generation;

    let task = send(
        &mut window,
        Message::RefreshFinished {
            result: Err(RefreshError::Network("boom".to_owned())),
            live: CurrentWallpaper::NoFile,
        },
    );

    assert!(!window.work.refresh_pending, "the pipeline is no longer running");
    assert_eq!(window.work.last_error, Some(RefreshError::Network("boom".to_owned())));
    assert!(window.work.last_updated.is_none(), "no successful fetch yet");
    assert!(
        window.timers.timer_generation > generation,
        "the retry timer replaces the pending one"
    );
    assert_eq!(
        task.effects,
        vec![Effect::RefreshTimer {
            generation: generation + 1,
            delay: RefreshDelay::Seconds(ERROR_RETRY_SECS),
        }]
    );
    assert_eq!(ERROR_RETRY_SECS, 3_600);
}

#[test]
fn non_leader_drops_current_generation_automatic_messages() {
    let mut window = follower();
    window.timers.timer_generation = 7;
    window.timers.shuffle_generation = 11;
    window.timers.shuffle_armed = true;
    window.timers.lock_poke_generation = 13;
    window.settings.config.shuffle_enabled = true;

    send(&mut window, Message::RefreshDue(7));
    assert!(!window.work.refresh_pending, "a follower cannot start a fetch");
    assert_eq!(window.timers.timer_generation, 7);

    send(&mut window, Message::ShuffleDue(11));
    assert!(window.timers.shuffle_armed, "a follower cannot consume a shuffle tick");
    assert_eq!(window.timers.shuffle_generation, 11);

    send(&mut window, Message::LockEvent(LockEvent::Locked));
    assert_eq!(window.timers.lock_poke_generation, 13);
    assert!(!window.due_lock_poke(13));
}

#[test]
fn non_leader_refresh_completions_clear_the_producer_without_rearming_or_merging() {
    for result in [
        Ok(RefreshBatch {
            fetched: vec![entry_in_memory("20260808", "Fresh_ROW1")],
            ineligible: Vec::new(),
            anchor: "202608080700".to_owned(),
            fallback: None,
            thumbnails_deferred: false,
        }),
        Err(RefreshError::Network("offline".to_owned())),
    ] {
        let existing = entry_in_memory("20260807", "Existing_ROW1");
        let mut window = follower();
        window.gallery.catalogue.images = vec![existing.clone()];
        window.work.refresh_pending = true;
        window.timers.timer_generation = 9;
        window.work.last_error = Some(RefreshError::Disk("old".to_owned()));

        let task = window
            .update(Message::RefreshFinished { result, live: CurrentWallpaper::NoFile }, 0);

        assert!(task.calls.is_empty() && task.effects.is_empty());
        assert!(!window.work.refresh_pending);
        assert_eq!(window.timers.timer_generation, 9, "no retry or success timer");
        assert_eq!(window.gallery.catalogue.images, vec![existing], "no merge/prune");
        assert!(matches!(window.work.last_error, Some(RefreshError::Disk(_))));
    }
}

/// A leader whose desktop can be poked.
fn poke_window() -> Window {
    let mut window = Window::default();
    window.timers.poke_config = true;
    window
}

/// The desktop's wallpaper state: how often it was written, and whether it
/// can be.
struct Desktop {
    writes: usize,
    read_only: bool,
}

fn desktop() -> Desktop {
    Desktop { writes: 0, read_only: false }
}

/// Delivers one rung of the ladder and runs the poke it leads to, if any.
/// Returns whether something was written.
fn settle_lock_pokes(window: &mut Window, desktop: &mut Desktop, generation: u64) -> bool {
    let task = window.update(Message::LockPokeDue(generation), 0);
    assert_eq!(task.units(), if window.due_lock_poke(generation) { 1 } else { 0 });
    let mut wrote = false;
    for effect in task.effects {
        assert_eq!(effect, Effect::PokeLockScreen);
        wrote = run_lock_poke(if desktop.read_only {
            Err("read-only".to_owned())
        } else {
            desktop.writes += 1;
            Ok(true)
        });
        window.update(Message::LockPokeFinished(wrote), 0);
    }
    wrote
}

#[test]
fn settled_lock_poke_toggles_the_injected_state() {
    let mut window = poke_window();
    let mut desktop = desktop();

    window.update(Message::LockEvent(LockEvent::Locked), 0);
    let generation = window.timers.lock_poke_generation;
    assert!(
        settle_lock_pokes(&mut window, &mut desktop, generation),
        "the ladder's first rung must write"
    );
    assert_eq!(desktop.writes, 1);

    // The same ladder's second rung writes again.
    assert!(settle_lock_pokes(&mut window, &mut desktop, generation));
    assert_eq!(desktop.writes, 2);
}

#[test]
fn a_stale_poke_due_is_a_noop() {
    let mut window = poke_window();
    let mut desktop = desktop();

    window.update(Message::LockEvent(LockEvent::Locked), 0);
    let stale = window.timers.lock_poke_generation;
    window.update(Message::LockEvent(LockEvent::Locked), 0);
    assert!(
        window.timers.lock_poke_generation > stale,
        "a fresh event must bump the generation (that bump *is* the cancel)"
    );

    assert!(
        !settle_lock_pokes(&mut window, &mut desktop, stale),
        "a rung from the replaced ladder must not poke"
    );
    assert!(!window.due_lock_poke(stale));
    assert_eq!(desktop.writes, 0, "the state must be untouched");
}

#[test]
fn a_second_lock_event_invalidates_the_first_ladder() {
    let mut window = poke_window();
    let mut desktop = desktop();

    window.update(Message::LockEvent(LockEvent::Locked), 0);
    let first = window.timers.lock_poke_generation;
    // A rapid re-lock (or a resume racing a lock): the last event wins.
    window.update(Message::LockEvent(LockEvent::Resumed), 0);
    let second = window.timers.lock_poke_generation;
    assert!(second > first);

    // Every rung of the first ladder is dead…
    assert!(!settle_lock_pokes(&mut window, &mut desktop, first));
    assert!(!settle_lock_pokes(&mut window, &mut desktop, first));
    assert_eq!(desktop.writes, 0);
    // …while the second ladder pokes normally.
    assert!(settle_lock_pokes(&mut window, &mut desktop, second));
    assert_eq!(desktop.writes, 1);
}

#[test]
fn resumed_pokes_like_locked() {
    let mut window = poke_window();
    let mut desktop = desktop();

    window.update(Message::LockEvent(LockEvent::Resumed), 0);
    let generation = window.timers.lock_poke_generation;
    assert!(settle_lock_pokes(&mut window, &mut desktop, generation));
    assert_eq!(desktop.writes, 1);
}

#[test]
fn poke_with_no_config_handle_is_a_noop() {
    let mut window = Window::default();
    let mut desktop = desktop();
    assert!(!window.timers.poke_config);

    window.update(Message::LockEvent(LockEvent::Locked), 0);
    let generation = window.timers.lock_poke_generation;
    assert_eq!(generation, 1, "the event still bumps the generation");
    assert!(!window.due_lock_poke(generation));
    assert!(!settle_lock_pokes(&mut window, &mut desktop, generation));
    // The completion path stays harmless too.
    let before = window.clone();
    assert_eq!(window.update(Message::LockPokeFinished(false), 0).units(), 0);
    assert_eq!(window, before);
}

#[test]
fn a_lock_event_arms_one_fresh_rung_per_delay() {
    let mut window = Window::default();
    let task = window.update(Message::LockEvent(LockEvent::Locked), 0);

    let rungs: Vec<(u64, u8)> = task
        .effects
        .iter()
        .filter_map(|effect| match effect {
            Effect::LockPokeTimer { generation, rung } => Some((*generation, *rung)),
            _ => None,
        })
        .collect();
    assert_eq!(rungs.len(), LOCK_POKE_RUNGS as usize, "one rung per ladder delay");
    for (at, (generation, rung)) in rungs.iter().enumerate() {
        assert_eq!(*generation, window.timers.lock_poke_generation, "the bumped generation");
        assert_eq!(*rung as usize, at);
    }
}

#[test]
fn a_failed_poke_settles_as_not_written() {
    let mut window = poke_window();
    let mut desktop = Desktop { writes: 0, read_only: true };

    window.update(Message::LockEvent(LockEvent::Locked), 0);
    let generation = window.timers.lock_poke_generation;
    let wrote = settle_lock_pokes(&mut window, &mut desktop, generation);

    assert!(!wrote, "a failed write must settle as not-written");
    assert_eq!(desktop.writes, 0, "the state must be untouched");
    assert!(!run_lock_poke(Ok(false)), "nothing to toggle, nothing written");
}

#[test]
fn a_shuffle_tick_picks_applies_and_counts_down_again() {
    let mut window = window_with_images(2);
    window.settings.config.shuffle_enabled = true;
    window.arm_shuffle();
    let tick = window.update(Message::ShuffleDue(1), 0);
    assert_eq!(tick.calls, vec![Call::PickOther { current: None }]);
    assert!(!window.timers.shuffle_armed, "the tick is used up");
    let pick = PathBuf::from("/imgs/pick.jpg");
    let apply = window.update(Message::ShufflePicked(Some(pick.clone())), 0);
    let Call::Apply { path, why } = apply.calls[0].clone() else {
        panic!("the pick is applied");
    };
    assert_eq!(path, pick);
    let done = window.update(
        Message::Applied { path, why, outcome: daymural::effect::ApplyOutcome::Applied },
        0,
    );
    assert_eq!(window.gallery.current, Some(pick));
    assert_eq!(
        done.effects,
        vec![Effect::ShuffleTimer { generation: 2, interval_secs: 86_400 }]
    );
}

#[test]
fn a_shuffle_over_a_vanished_file_prunes() {
    let mut window = window_with_images(2);
    window.settings.config.shuffle_enabled = true;
    let path = PathBuf::from("/imgs/gone.jpg");
    let task = window.finish_shuffle_apply(
        path.clone(),
        daymural::effect::ApplyOutcome::Failed { file_gone: true },
    );
    assert_eq!(
        task.calls,
        vec![Call::ReadLive(LiveUse::Prune { shuffle_changed: false, accent_flip: None })]
    );
    assert!(!window.timers.shuffle_armed, "the countdown waits for the prune");
    let task = window
        .finish_shuffle_apply(path, daymural::effect::ApplyOutcome::Failed { file_gone: false });
    assert!(task.calls.is_empty());
    assert!(window.timers.shuffle_armed);
}

#[test]
fn retention_and_horizon_have_their_edges() {
    assert_eq!(download_horizon(0), 8);
    assert_eq!(download_horizon(1), 1);
    assert_eq!(download_horizon(7), 7);
    assert_eq!(download_horizon(8), 8);
    assert_eq!(download_horizon(30), 8);
    assert!(retention_reduced(0, 30));
    assert!(retention_reduced(30, 8));
    assert!(!retention_reduced(8, 30));
    assert!(!retention_reduced(8, 8));
    assert!(!retention_reduced(8, 0));
    assert_eq!(next_generation(6), 7);
    assert_eq!(next_generation(u64::MAX), 0);
}

#[test]
fn stale_ticks_of_every_kind_change_nothing() {
    let mut window = window_with_images(2);
    window.timers.timer_generation = 5;
    window.timers.shuffle_generation = 5;
    window.timers.lock_poke_generation = 5;
    window.role.leadership_generation = 5;
    window.accent.accent_write_generation = 5;
    window.settings.config_confirmation_generation = 5;
    window.peers.peer_apply_notice_generation = 5;
    let before = window.clone();
    for message in [
        Message::RefreshDue(4),
        Message::ShuffleDue(4),
        Message::LockPokeDue(4),
        Message::LeadershipTick(4),
        Message::AccentWriteFinished { generation: 4, success: true, disk_enabled: Some(true) },
        Message::ConfigConfirmed {
            generation: 4,
            was_active_leader: true,
            config: AppletConfig { retention_days: 1, ..AppletConfig::default() },
        },
        Message::PeerApplyValidated { generation: 4, live: CurrentWallpaper::NoFile },
        Message::PeerRefreshLiveRead { request: 9, live: CurrentWallpaper::NoFile },
        Message::PeerRefreshTimeout { generation: 0, request: 9 },
    ] {
        let task = window.update(message, 0);
        assert!(task.calls.is_empty() && task.effects.is_empty());
        assert_eq!(window, before);
    }
}
