use daymural::coordination::PeerApplyNotice;
use daymural::effect::{Call, Effect, Task};
use daymural::message::Message;
use daymural::settings::{
    list_changed_writes, normalize, AccentPair, AccentSnapshot, AppletConfig, AppletSetting,
    Choices, ConfigWrite, Rgb, SETTING_SLOTS,
};
use daymural::wallpaper::{ColdStart, CurrentWallpaper, LiveFile};
use daymural::window::{Leadership, Window};
use std::path::PathBuf;

fn follower() -> Window {
    let mut window = Window::default();
    window.role.leadership = Leadership::forced(false);
    window
}

/// Writes every setting a task starts to `disk`, or fails to, and hands the
/// completions back.
fn land(window: &mut Window, disk: &mut AppletConfig, task: Task, works: bool) -> usize {
    let mut writes: usize = 0;
    let mut pending = task.effects;
    while let Some(effect) = pending.pop() {
        if let Effect::WriteSetting { generation, setting } = effect {
            writes += 1;
            if works {
                store(disk, setting.persist());
            }
            let result = if works { Ok(()) } else { Err("not a directory".to_owned()) };
            let next =
                window.update(Message::AppletSettingWritten { generation, setting, result }, 0);
            pending.extend(next.effects);
        }
    }
    writes
}

fn store(disk: &mut AppletConfig, write: ConfigWrite) {
    match write {
        ConfigWrite::ShuffleEnabled(value) => disk.shuffle_enabled = value,
        ConfigWrite::ShuffleInterval(value) => disk.shuffle_interval_secs = value,
        ConfigWrite::Retention(value) => disk.retention_days = value,
        ConfigWrite::AccentEnabled(value) => disk.accent_enabled = value,
        ConfigWrite::AccentSnapshot(value) => disk.accent_snapshot = value,
        ConfigWrite::AccentLastWritten(value) => disk.accent_last_written = value,
    }
}

fn snapshot() -> AccentSnapshot {
    AccentSnapshot { light: Some(Rgb(1, 2, 3)), dark: None }
}

fn last_written() -> AccentPair {
    AccentPair { light: Rgb(4, 5, 6), dark: Rgb(7, 8, 9) }
}

#[test]
fn set_config_adopts_only_real_changes() {
    let mut window = Window::default();
    let same = window.settings.config;
    window.set_config(same);
    assert_eq!(window.settings.config, same);

    let changed = AppletConfig { shuffle_interval_secs: 1_800, ..same };
    window.set_config(changed);
    assert_eq!(window.settings.config, changed);
}

#[test]
fn set_config_persists_changed_keys_only() {
    let mut window = Window::default();
    window.settings.config_context = true;
    let changed = AppletConfig {
        retention_days: 30,
        accent_last_written: Some(last_written()),
        ..window.settings.config
    };
    let task = window.set_config(changed);
    assert_eq!(
        task.calls,
        vec![
            Call::Persist(ConfigWrite::Retention(30)),
            Call::Persist(ConfigWrite::AccentLastWritten(Some(last_written()))),
        ]
    );
    assert!(window.set_config(changed).calls.is_empty());
    let mut inert = follower();
    inert.settings.config_context = true;
    assert!(inert.set_config(changed).calls.is_empty());
    assert_eq!(inert.settings.config, AppletConfig::default());
}

#[test]
fn non_leader_settings_persist_only_their_own_keys() {
    let seeded = AppletConfig {
        accent_enabled: true,
        accent_snapshot: Some(snapshot()),
        accent_last_written: Some(last_written()),
        ..AppletConfig::default()
    };
    let mut disk = seeded;
    let mut window = follower();
    window.settings.config = seeded;
    window.settings.config_context = true;
    for message in [
        Message::SetShuffleEnabled(true),
        Message::SetShuffleInterval(0),
        Message::SetRetention(0),
    ] {
        let task = window.update(message, 0);
        assert!(task.calls.is_empty());
        assert_eq!(land(&mut window, &mut disk, task, true), 1);
    }
    assert!(window.settings.config.shuffle_enabled);
    assert_eq!(window.settings.config.shuffle_interval_secs, 1_800);
    assert_eq!(window.settings.config.retention_days, 3);
    assert_eq!(window.timers.timer_generation, 0);
    assert_eq!(window.timers.shuffle_generation, 0);
    assert_eq!(disk, window.settings.config);
    assert_eq!(disk.accent_snapshot, Some(snapshot()), "accent keys are leader-owned");
    assert_eq!(disk.accent_last_written, Some(last_written()));
}

#[test]
fn non_leader_settings_handle_missing_and_failing_config_contexts() {
    let mut memory_only = follower();
    memory_only.update(Message::SetShuffleEnabled(true), 0);
    memory_only.update(Message::SetShuffleInterval(0), 0);
    memory_only.update(Message::SetRetention(0), 0);
    assert!(memory_only.settings.config.shuffle_enabled);
    assert_eq!(memory_only.settings.config.shuffle_interval_secs, 1_800);
    assert_eq!(memory_only.settings.config.retention_days, 3);

    let mut failing = follower();
    failing.settings.config_context = true;
    let before = failing.settings.config;
    let mut disk = before;
    for message in [
        Message::SetShuffleEnabled(true),
        Message::SetShuffleInterval(0),
        Message::SetRetention(0),
    ] {
        let task = failing.update(message, 0);
        assert_eq!(land(&mut failing, &mut disk, task, false), 1);
    }
    assert_eq!(failing.settings.config, before, "failed persists are not adopted");
    assert!(!failing.timers.shuffle_armed);
}

#[test]
fn follower_setting_writes_are_serialized_and_latest_value_wins() {
    let mut window = follower();
    window.settings.config_context = true;
    let first = window.update(Message::SetShuffleEnabled(true), 0);
    let second = window.update(Message::SetShuffleEnabled(false), 0);
    assert_eq!(
        first.effects,
        vec![Effect::WriteSetting {
            generation: 1,
            setting: AppletSetting::ShuffleEnabled(true),
        }]
    );
    assert_eq!(second.units(), 0, "newer write waits behind the first");
    let next = window.update(
        Message::AppletSettingWritten {
            generation: 1,
            setting: AppletSetting::ShuffleEnabled(true),
            result: Ok(()),
        },
        0,
    );
    assert!(!window.settings.config.shuffle_enabled, "stale completion is not adopted");
    assert_eq!(
        next.effects,
        vec![Effect::WriteSetting {
            generation: 2,
            setting: AppletSetting::ShuffleEnabled(false),
        }]
    );
    window.update(
        Message::AppletSettingWritten {
            generation: 2,
            setting: AppletSetting::ShuffleEnabled(false),
            result: Ok(()),
        },
        0,
    );
    assert!(!window.settings.config.shuffle_enabled);
    assert!(!window.settings.setting_write_inflight);
    assert!(window.settings.setting_write_queue.is_empty());
}

#[test]
fn leader_and_follower_setting_writes_do_not_clobber_other_keys() {
    let mut disk = AppletConfig::default();
    let mut leader = Window::default();
    leader.settings.config_context = true;
    let mut follower = follower();
    follower.settings.config_context = true;
    let follower_write = follower.update(Message::SetRetention(2), 0);
    let leader_write = leader.update(Message::SetShuffleEnabled(true), 0);
    land(&mut follower, &mut disk, follower_write, true);
    land(&mut leader, &mut disk, leader_write, true);
    assert_eq!(disk.retention_days, 30);
    assert!(disk.shuffle_enabled);
}

#[test]
fn a_follower_toggle_persists_only_the_flag() {
    let mut window = follower();
    window.settings.config = AppletConfig {
        accent_enabled: true,
        accent_snapshot: Some(snapshot()),
        accent_last_written: Some(last_written()),
        ..AppletConfig::default()
    };
    window.settings.config_context = true;
    window.accent.accent_handles = true;
    let mut disk = window.settings.config;

    let task = window.update(Message::SetAccentEnabled(false), 0);
    assert_eq!(land(&mut window, &mut disk, task, true), 1);

    assert!(!window.settings.config.accent_enabled);
    assert!(!disk.accent_enabled);
    assert_eq!(disk.accent_snapshot, Some(snapshot()));
    assert_eq!(disk.accent_last_written, Some(last_written()));
    assert!(window.accent.accent_inflight.is_none());
    assert_eq!(window.accent.accent_write_generation, 0);
}

#[test]
fn a_follower_toggle_requires_a_successful_persist() {
    let mut absent = follower();
    absent.update(Message::SetAccentEnabled(true), 0);
    assert!(!absent.settings.config.accent_enabled);
    assert!(absent.accent.accent_inflight.is_none());

    let mut failing = follower();
    failing.settings.config_context = true;
    let mut disk = AppletConfig::default();
    let task = failing.update(Message::SetAccentEnabled(true), 0);
    assert_eq!(land(&mut failing, &mut disk, task, false), 1);
    assert!(!failing.settings.config.accent_enabled);
    assert!(failing.accent.accent_inflight.is_none());
}

#[test]
fn a_follower_echo_keeps_the_accent_records() {
    let mut window = follower();
    window.settings.config.accent_enabled = true;
    window.settings.config.accent_snapshot = Some(snapshot());
    window.settings.config.accent_last_written = Some(last_written());
    window.settings.config_context = true;
    let stale = AppletConfig { accent_enabled: true, ..AppletConfig::default() };
    let task = window.update(Message::ConfigUpdated(stale), 0);
    assert_eq!(
        task.effects,
        vec![Effect::ConfirmConfig { generation: 1, was_active_leader: false, payload: stale }]
    );
    // The flag on disk is off by now.
    window.update(
        Message::ConfigConfirmed {
            generation: 1,
            was_active_leader: false,
            config: AppletConfig::default(),
        },
        0,
    );
    assert!(!window.settings.config.accent_enabled, "fresh disk flag wins");
    assert_eq!(window.settings.config.accent_snapshot, Some(snapshot()));
    assert_eq!(window.settings.config.accent_last_written, Some(last_written()));
    assert!(window.accent.accent_inflight.is_none());
}

#[test]
fn a_follower_apply_leaves_the_leaders_work_alone() {
    let mut window = follower();
    window.peers.coordination_context = true;
    window.gallery.cold_start = ColdStart::Pending;
    window.settings.config.accent_enabled = true;
    let applied = PathBuf::from("/images/peer-applied.jpg");

    let task = window.finish_manual_apply(applied.clone());
    assert_eq!(window.gallery.current, Some(applied.clone()));
    assert_eq!(window.gallery.cold_start, ColdStart::Pending, "leader owns it");
    assert_eq!(window.peers.non_leader_reload_generation, 1);
    assert!(window.accent.accent_inflight.is_none());
    assert_eq!(window.timers.shuffle_generation, 0);
    assert_eq!(task.effects, vec![Effect::WriteApplyNotice { path: applied.clone() }]);

    let mut absent = follower();
    let task = absent.finish_manual_apply(applied.clone());
    assert_eq!(task.units(), 0);
    assert_eq!(absent.gallery.current, Some(applied));
    let before = absent.clone();
    absent.update(Message::PeerApplyNoticeWritten(Err("no mailbox".to_owned())), 0);
    assert_eq!(absent, before);
}

#[test]
fn stale_and_non_file_peer_apply_validations_cannot_regress_leader() {
    let original = PathBuf::from("/images/current.jpg");
    let stale = PathBuf::from("/images/stale.jpg");
    let mut leader = Window::default();
    leader.gallery.current = Some(original.clone());
    leader.gallery.cold_start = ColdStart::Pending;

    let notice = |generation: u64, path: &str| {
        Some(PeerApplyNotice { generation, path: PathBuf::from(path) })
    };
    assert_eq!(leader.consume_peer_apply_notice(notice(2, "/images/stale.jpg")).units(), 1);
    assert_eq!(leader.consume_peer_apply_notice(notice(3, "/images/newer.jpg")).units(), 1);
    leader.finish_peer_apply_validation(
        2,
        CurrentWallpaper::File(LiveFile { path: stale, ours: true }),
    );
    leader.finish_peer_apply_validation(3, CurrentWallpaper::NoFile);
    assert_eq!(leader.gallery.current, Some(original.clone()));
    assert_eq!(leader.gallery.cold_start, ColdStart::Pending);

    assert_eq!(
        leader.consume_peer_apply_notice(notice(2, "/images/older.jpg")).units(),
        0,
        "stale watcher payload is inert"
    );
    leader.peers.peer_apply_notice_generation = 4;
    leader.finish_peer_apply_validation(4, CurrentWallpaper::Unknown);
    assert_eq!(leader.gallery.current, Some(original));
    assert_eq!(leader.gallery.cold_start, ColdStart::Pending);
}

#[test]
fn every_setting_has_a_slot_a_key_and_a_write() {
    let all = [
        (AppletSetting::ShuffleEnabled(true), "shuffle_enabled"),
        (AppletSetting::ShuffleInterval(1_800), "shuffle_interval_secs"),
        (AppletSetting::Retention(3), "retention_days"),
        (AppletSetting::AccentEnabled(true), "accent_enabled"),
    ];
    assert_eq!(all.len(), SETTING_SLOTS);
    for (at, (setting, key)) in all.into_iter().enumerate() {
        assert_eq!(setting.slot(), at);
        assert_eq!(setting.key(), key);
        let mut adopted = AppletConfig::default();
        setting.adopt(&mut adopted);
        let mut stored = AppletConfig::default();
        store(&mut stored, setting.persist());
        assert_eq!(adopted, stored);
        assert_ne!(adopted, AppletConfig::default());
    }
}

#[test]
fn a_transition_lists_its_changed_keys() {
    let old = AppletConfig::default();
    assert!(list_changed_writes(old, old).is_empty());
    let new = AppletConfig {
        shuffle_enabled: true,
        shuffle_interval_secs: 60,
        retention_days: 0,
        accent_enabled: true,
        accent_snapshot: Some(snapshot()),
        accent_last_written: Some(last_written()),
    };
    let mut disk = old;
    let writes = list_changed_writes(old, new);
    assert_eq!(writes.len(), 6);
    for write in writes {
        store(&mut disk, write);
    }
    assert_eq!(disk, new);
}

#[test]
fn only_web_links_and_absolute_files_are_opened() {
    let mut window = Window::default();
    let page = "https://www.bing.com/x".to_owned();
    assert_eq!(
        window.update(Message::OpenUrl(page.clone()), 0).calls,
        vec![Call::OpenUrl(page)]
    );
    assert!(window.update(Message::OpenUrl("--version".to_owned()), 0).calls.is_empty());
    let path = PathBuf::from("/imgs/a.jpg");
    let open = Message::OpenFile(path.clone());
    assert_eq!(window.update(open, 0).calls, vec![Call::OpenFile(path.clone())]);
    for relative in ["-flag", "--version", "a.jpg", "./a.jpg", "imgs/a.jpg", ""] {
        let open = Message::OpenFile(PathBuf::from(relative));
        assert!(window.update(open, 0).calls.is_empty(), "{relative}");
    }
    assert!(window.open_file_if(path.clone(), false).calls.is_empty());
    assert_eq!(window.open_file_if(path.clone(), true).calls, vec![Call::OpenFile(path)]);
}

#[test]
fn an_unsupported_retention_becomes_the_default() {
    let choices = Choices { intervals: vec![1_800, 3_600], retentions: vec![3, 8, 30, 0] };
    let raw = AppletConfig {
        shuffle_enabled: true,
        shuffle_interval_secs: 7,
        retention_days: 1,
        accent_enabled: true,
        accent_snapshot: Some(snapshot()),
        accent_last_written: Some(last_written()),
    };
    let normal = normalize(raw, &choices);
    assert_eq!(normal, AppletConfig { retention_days: 8, ..raw });
    assert_eq!(normalize(normal, &choices), normal, "once is enough");
    for days in [3, 8, 30, 0] {
        let kept = AppletConfig { retention_days: days, ..raw };
        assert_eq!(normalize(kept, &choices), kept);
    }
}

#[test]
fn dropdowns_map_their_indices_to_values() {
    let choices = Choices::default();
    assert_eq!(choices.shuffle_interval_secs(0), 1_800);
    assert_eq!(choices.retention_days(0), 3);
    assert_eq!(choices.retention_days(2), 30);
    assert_eq!(choices.shuffle_interval_secs(99), AppletConfig::default().shuffle_interval_secs);
    assert_eq!(choices.retention_days(99), AppletConfig::default().retention_days);
}

#[test]
fn raw_settings_are_adopted_on_no_path() {
    let raw = AppletConfig { retention_days: 1, ..AppletConfig::default() };
    // Without a store the payload counts, with one what was read, and a
    // failed read falls back to a payload that is normalised already.
    let mut leader = Window::default();
    let task = leader.update(Message::ConfigUpdated(raw), 0);
    assert_eq!(leader.settings.config, AppletConfig::default());
    assert_eq!(task.units(), 0);
    assert!(task.calls.is_empty(), "nothing is pruned");

    let mut follower = follower();
    follower.settings.config_context = true;
    let task = follower.update(Message::ConfigUpdated(raw), 0);
    assert_eq!(
        task.effects,
        vec![Effect::ConfirmConfig {
            generation: 1,
            was_active_leader: false,
            payload: AppletConfig::default(),
        }]
    );
    follower.update(
        Message::ConfigConfirmed { generation: 1, was_active_leader: false, config: raw },
        0,
    );
    assert_eq!(follower.settings.config, AppletConfig::default());
}
