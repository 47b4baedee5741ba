use daymural::accent::{
    accent_job, extract_accent_hue, extracted_hue, run_accent_job, AccentAction, AccentInflight,
    AccentJob, Builders,
};
use daymural::effect::{Call, Effect, Task};
use daymural::message::Message;
use daymural::settings::{
    AccentPair, AccentSnapshot, AppletConfig, ConfigWrite, Rgb,
};
use daymural::wallpaper::{CurrentWallpaper, LiveFile};
use daymural::window::{Leadership, Window};
use std::path::PathBuf;

/// The themes and the settings on disk, and which of them can be written.
struct Desk {
    themes: AccentSnapshot,
    disk: AppletConfig,
    themes_locked: bool,
    config_locked: bool,
    /// Theme writes that landed.
    writes: usize,
}

const DEFAULTS: AccentSnapshot = AccentSnapshot { light: None, dark: None };

fn hue(degrees: f32) -> Option<u32> {
    Some(degrees.to_bits())
}

/// The colours a hue leads to.
fn expected_pair(hue: Option<u32>) -> AccentPair {
    let degrees = hue.map_or(255, |bits| (f32::from_bits(bits) / 2.0) as u8);
    AccentPair { light: Rgb(degrees, 100, 200), dark: Rgb(degrees, 50, 100) }
}

fn shown(pair: AccentPair) -> AccentSnapshot {
    AccentSnapshot { light: Some(pair.light), dark: Some(pair.dark) }
}

/// What a plan over these records and themes asks for.
fn plan(
    enabled: bool,
    snapshot: Option<AccentSnapshot>,
    last_written: Option<AccentPair>,
    current: AccentSnapshot,
    hue: Option<u32>,
) -> AccentAction {
    let target = expected_pair(hue);
    if !enabled {
        return AccentAction::Skip;
    }
    match (last_written, snapshot) {
        (Some(written), _) if shown(written) != current => {
            AccentAction::Disarm { keep_snapshot: false }
        }
        (Some(written), _) if written == target => AccentAction::Skip,
        (None, Some(user)) if user != current => AccentAction::Disarm { keep_snapshot: true },
        (None, None) => AccentAction::Write {
            light: target.light,
            dark: target.dark,
            snapshot_now: true,
        },
        _ => AccentAction::Write {
            light: target.light,
            dark: target.dark,
            snapshot_now: false,
        },
    }
}

impl Desk {
    fn persist(&mut self, write: ConfigWrite) -> bool {
        if self.config_locked {
            return false;
        }
        match write {
            ConfigWrite::ShuffleEnabled(value) => self.disk.shuffle_enabled = value,
            ConfigWrite::ShuffleInterval(value) => self.disk.shuffle_interval_secs = value,
            ConfigWrite::Retention(value) => self.disk.retention_days = value,
            ConfigWrite::AccentEnabled(value) => self.disk.accent_enabled = value,
            ConfigWrite::AccentSnapshot(value) => self.disk.accent_snapshot = value,
            ConfigWrite::AccentLastWritten(value) => self.disk.accent_last_written = value,
        }
        true
    }

    /// Runs a theme write.
    fn run(&mut self, job: AccentJob) -> bool {
        run_accent_job(if self.themes_locked {
            Err("read-only".to_owned())
        } else {
            self.writes += 1;
            self.themes = match job {
                AccentJob::Write { light, dark, .. } => {
                    AccentSnapshot { light: Some(light), dark: Some(dark) }
                }
                AccentJob::Restore(accents) => accents,
            };
            Ok(())
        })
    }

    /// Sends a message and does every call it leads to, at once.
    fn send(&mut self, window: &mut Window, message: Message) -> Vec<Effect> {
        let Task { mut calls, mut effects } = window.update(message, 0);
        while !calls.is_empty() {
            let answer = match calls.remove(0) {
                Call::PlanAccent { enabled, snapshot, last_written, hue } => {
                    Some(Message::AccentPlanned {
                        action: plan(enabled, snapshot, last_written, self.themes, hue),
                        builders: Builders { accents: self.themes, token: 1 },
                    })
                }
                Call::ReadAccents { after } => {
                    Some(Message::AccentsRead { accents: self.themes, after })
                }
                Call::ReadAccentBaseline => {
                    Some(Message::AccentBaseline(Some(self.disk.accent_enabled)))
                }
                Call::Persist(write) => {
                    self.persist(write);
                    None
                }
                Call::PersistChecked { write, step } => {
                    Some(Message::AccentPersisted { step, landed: self.persist(write) })
                }
                _ => None,
            };
            if let Some(message) = answer {
                let next = window.update(message, 0);
                calls.extend(next.calls);
                effects.extend(next.effects);
            }
        }
        effects
    }

    /// Completes the theme task in flight with this outcome.
    fn complete(&mut self, window: &mut Window, generation: u64, success: bool) -> Vec<Effect> {
        let disk_enabled = Some(self.disk.accent_enabled);
        self.send(window, Message::AccentWriteFinished { generation, success, disk_enabled })
    }

    /// Runs theme tasks until none is in flight.
    fn settle_accent_tasks(&mut self, window: &mut Window) {
        while let Some(inflight) = window.accent.accent_inflight {
            let success = self.run(accent_job(&inflight));
            let generation = window.accent.accent_write_generation;
            self.complete(window, generation, success);
        }
    }

    /// A settings change that another process made, confirmed from disk.
    fn external(&mut self, window: &mut Window, payload: AppletConfig) {
        for effect in self.send(window, Message::ConfigUpdated(payload)) {
            if let Effect::ConfirmConfig { generation, was_active_leader, .. } = effect {
                let config = self.disk;
                let confirmed =
                    Message::ConfigConfirmed { generation, was_active_leader, config };
                self.send(window, confirmed);
            }
        }
    }
}

/// A leader with the feature on, theme handles and a settings store.
fn accent_window() -> (Window, Desk) {
    let mut window = Window::default();
    window.accent.accent_handles = true;
    window.settings.config_context = true;
    window.settings.config.accent_enabled = true;
    let desk = Desk {
        themes: DEFAULTS,
        disk: window.settings.config,
        themes_locked: false,
        config_locked: false,
        writes: 0,
    };
    (window, desk)
}

fn start_disabled(window: &mut Window, desk: &mut Desk) {
    window.settings.config.accent_enabled = false;
    desk.disk = window.settings.config;
}

fn foo() -> PathBuf {
    PathBuf::from("/imgs/20260808-Foo_ROW1_UHD.jpg")
}

fn computed(degrees: f32) -> Message {
    Message::AccentComputed { source: foo(), hue: hue(degrees) }
}

fn user_accents() -> AccentSnapshot {
    AccentSnapshot { light: Some(Rgb(10, 20, 30)), dark: Some(Rgb(40, 50, 60)) }
}

#[test]
fn accent_computed_writes_snapshots_and_persists_last_written() {
    let (mut window, mut desk) = accent_window();
    window.gallery.current = Some(foo());

    desk.send(&mut window, computed(200.0));
    desk.settle_accent_tasks(&mut window);

    // Both builders hold the colours…
    let expected = expected_pair(hue(200.0));
    assert_eq!(desk.themes, shown(expected));
    // …the don't-clobber pair is recorded…
    assert_eq!(window.settings.config.accent_last_written, Some(expected));
    // …and the first write captured the user's accents before.
    assert_eq!(window.settings.config.accent_snapshot, Some(DEFAULTS));
    // "Persisted" means on disk, not just in memory.
    assert_eq!(desk.disk, window.settings.config);
}

#[test]
fn stale_accent_results_are_dropped() {
    let (mut window, mut desk) = accent_window();
    window.gallery.current = Some(PathBuf::from("/imgs/20260808-New_ROW1_UHD.jpg"));

    desk.send(
        &mut window,
        Message::AccentComputed {
            source: PathBuf::from("/imgs/20260807-Old_ROW1_UHD.jpg"),
            hue: hue(120.0),
        },
    );

    assert!(
        window.accent.accent_inflight.is_none(),
        "a stale result must not even spawn a write"
    );
    assert_eq!(desk.themes, DEFAULTS);
    assert_eq!(window.settings.config.accent_snapshot, None);
    assert_eq!(window.settings.config.accent_last_written, None);
}

#[test]
fn an_external_accent_change_disarms_without_restoring() {
    let (mut window, mut desk) = accent_window();
    window.gallery.current = Some(foo());

    // Steady state: we wrote once.
    let ours = AccentPair { light: Rgb(1, 2, 3), dark: Rgb(4, 5, 6) };
    window.settings.config.accent_snapshot = Some(DEFAULTS);
    window.settings.config.accent_last_written = Some(ours);
    desk.disk = window.settings.config;

    // The user picks a new dark accent…
    let picked = AccentSnapshot { light: Some(ours.light), dark: Some(Rgb(99, 88, 77)) };
    desk.themes = picked;

    // …and the next recompute disarms: off, cleared, and no restore.
    desk.send(&mut window, computed(10.0));

    assert!(!window.settings.config.accent_enabled);
    assert_eq!(window.settings.config.accent_snapshot, None);
    assert_eq!(window.settings.config.accent_last_written, None);
    assert_eq!(desk.themes, picked);
    // The disarm survives a restart.
    assert_eq!(desk.disk, window.settings.config);
    assert!(!desk.disk.accent_enabled);
}

#[test]
fn accent_toggle_snapshots_on_enable_and_restores_on_disable() {
    let (mut window, mut desk) = accent_window();
    start_disabled(&mut window, &mut desk);

    let user = AccentSnapshot { light: Some(Rgb(10, 20, 30)), dark: None };
    desk.themes = user;

    desk.send(&mut window, Message::SetAccentEnabled(true));
    assert!(window.settings.config.accent_enabled);
    assert_eq!(window.settings.config.accent_snapshot, Some(user));
    assert_eq!(window.settings.config.accent_last_written, None);

    // A compute lands (the enable-time snapshot must survive it).
    window.gallery.current = Some(foo());
    desk.send(&mut window, computed(30.0));
    desk.settle_accent_tasks(&mut window);
    assert_eq!(
        window.settings.config.accent_last_written,
        Some(expected_pair(hue(30.0)))
    );
    assert_eq!(window.settings.config.accent_snapshot, Some(user));
    assert_ne!(desk.themes, user);

    // Toggle off: the setting flips at once, the restore runs as a task.
    desk.send(&mut window, Message::SetAccentEnabled(false));
    assert!(!window.settings.config.accent_enabled, "the toggle must not wait on theme I/O");
    desk.settle_accent_tasks(&mut window);
    assert!(!window.settings.config.accent_enabled);
    assert_eq!(window.settings.config.accent_snapshot, None);
    assert_eq!(window.settings.config.accent_last_written, None);
    assert_eq!(desk.themes, user);
    assert_eq!(desk.disk, window.settings.config);
}

#[test]
fn enabling_without_theme_handles_refuses() {
    let mut window = Window::default();
    assert!(!window.accent.accent_handles);

    window.update(Message::SetAccentEnabled(true), 0);

    assert!(!window.settings.config.accent_enabled);
    assert_eq!(window.settings.config.accent_snapshot, None);
}

#[test]
fn enabling_without_a_config_context_refuses() {
    let (mut window, mut desk) = accent_window();
    window.settings.config.accent_enabled = false;
    window.settings.config_context = false;

    desk.send(&mut window, Message::SetAccentEnabled(true));

    assert!(!window.settings.config.accent_enabled);
    assert_eq!(window.settings.config.accent_snapshot, None);
}

#[test]
fn an_echoed_enable_does_not_resnapshot() {
    let (mut window, mut desk) = accent_window();
    start_disabled(&mut window, &mut desk);

    // The user's pre-feature accents, then enable + a landed write.
    let user = user_accents();
    desk.themes = user;
    desk.send(&mut window, Message::SetAccentEnabled(true));
    assert_eq!(window.settings.config.accent_snapshot, Some(user));
    window.gallery.current = Some(foo());
    desk.send(&mut window, computed(200.0));
    desk.settle_accent_tasks(&mut window);
    assert_ne!(desk.themes, user);

    // A repeated enable — an echo, not a flip — must not re-snapshot.
    desk.send(&mut window, Message::SetAccentEnabled(true));
    assert_eq!(window.settings.config.accent_snapshot, Some(user));

    // Disable still restores the true pre-feature accents.
    desk.send(&mut window, Message::SetAccentEnabled(false));
    desk.settle_accent_tasks(&mut window);
    assert_eq!(desk.themes, user);
}

#[test]
fn a_failed_accent_write_leaves_the_feature_armed_for_a_retry() {
    let (mut window, mut desk) = accent_window();
    window.gallery.current = Some(foo());

    desk.themes_locked = true;
    desk.send(&mut window, computed(200.0));
    desk.settle_accent_tasks(&mut window);
    desk.themes_locked = false;

    assert_eq!(window.settings.config.accent_last_written, None);
    assert_eq!(window.settings.config.accent_snapshot, Some(DEFAULTS));
    assert!(window.settings.config.accent_enabled);
    assert_eq!(desk.themes, DEFAULTS);
    assert_eq!(desk.disk, window.settings.config);
}

#[test]
fn a_partial_accent_write_rolls_back_and_stays_armed() {
    let (mut window, mut desk) = accent_window();
    start_disabled(&mut window, &mut desk);

    let user = user_accents();
    desk.themes = user;
    desk.send(&mut window, Message::SetAccentEnabled(true));

    // One of the two themes cannot be written: the write puts the other one
    // back and fails as a whole.
    window.gallery.current = Some(foo());
    desk.themes_locked = true;
    desk.send(&mut window, computed(200.0));
    desk.settle_accent_tasks(&mut window);
    desk.themes_locked = false;

    // The feature stays enabled and armed for a retry, snapshot kept…
    assert!(window.settings.config.accent_enabled, "must not have disarmed");
    assert_eq!(window.settings.config.accent_snapshot, Some(user));
    assert_eq!(window.settings.config.accent_last_written, None);
    assert_eq!(desk.disk, window.settings.config);
    assert_eq!(desk.themes, user);

    // "Armed" is real: the same recompute now lands on both modes.
    desk.send(&mut window, computed(200.0));
    desk.settle_accent_tasks(&mut window);
    assert!(window.settings.config.accent_enabled);
    assert_eq!(
        window.settings.config.accent_last_written,
        Some(expected_pair(hue(200.0)))
    );
    assert_eq!(window.settings.config.accent_snapshot, Some(user));
}

#[test]
fn a_failed_disable_time_restore_keeps_the_snapshot_for_the_next_enable() {
    let (mut window, mut desk) = accent_window();
    start_disabled(&mut window, &mut desk);

    // Enable over explicit user accents, land a write.
    let user = user_accents();
    desk.themes = user;
    desk.send(&mut window, Message::SetAccentEnabled(true));
    window.gallery.current = Some(foo());
    desk.send(&mut window, computed(200.0));
    desk.settle_accent_tasks(&mut window);
    let ours = desk.themes;
    assert_ne!(ours, user);

    // Disable while the themes are unwritable.
    desk.themes_locked = true;
    desk.send(&mut window, Message::SetAccentEnabled(false));
    desk.settle_accent_tasks(&mut window);
    desk.themes_locked = false;

    assert!(!window.settings.config.accent_enabled);
    assert_eq!(window.settings.config.accent_snapshot, Some(user), "snapshot kept");
    assert_eq!(window.settings.config.accent_last_written, None);
    assert_eq!(desk.themes, ours, "no restore happened yet");
    assert_eq!(desk.disk, window.settings.config);

    // The retry is real.
    desk.send(&mut window, Message::SetAccentEnabled(true));
    desk.settle_accent_tasks(&mut window);
    assert!(window.settings.config.accent_enabled);
    assert_eq!(window.settings.config.accent_snapshot, Some(user));
    assert_eq!(desk.themes, user);
    desk.send(&mut window, Message::SetAccentEnabled(false));
    desk.settle_accent_tasks(&mut window);
    assert_eq!(window.settings.config.accent_snapshot, None);
    assert_eq!(desk.themes, user);
}

#[test]
fn a_refused_external_enable_is_written_back_off() {
    let (mut window, mut desk) = accent_window();
    start_disabled(&mut window, &mut desk);
    let user = AccentSnapshot { light: Some(Rgb(10, 20, 30)), dark: None };
    window.settings.config.accent_snapshot = Some(user);
    desk.disk = AppletConfig { accent_enabled: true, ..window.settings.config };

    desk.themes_locked = true;
    let payload = desk.disk;
    desk.external(&mut window, payload);
    desk.settle_accent_tasks(&mut window);

    assert!(!window.settings.config.accent_enabled);
    assert_eq!(window.settings.config.accent_snapshot, Some(user));
    assert!(!desk.disk.accent_enabled, "the refusal must reach the disk");
    assert_eq!(desk.disk.accent_snapshot, Some(user), "snapshot survives");
}

#[test]
fn an_enable_that_cannot_persist_its_snapshot_refuses() {
    let (mut window, mut desk) = accent_window();
    start_disabled(&mut window, &mut desk);

    desk.config_locked = true;
    desk.send(&mut window, Message::SetAccentEnabled(true));
    desk.config_locked = false;

    assert!(!window.settings.config.accent_enabled);
    assert_eq!(window.settings.config.accent_snapshot, None, "nothing half-adopted");
    assert!(!desk.disk.accent_enabled);
    assert_eq!(desk.disk.accent_snapshot, None);

    // The refusal is transient.
    desk.send(&mut window, Message::SetAccentEnabled(true));
    assert!(window.settings.config.accent_enabled);
    assert_eq!(desk.disk, window.settings.config);
}

#[test]
fn a_failed_snapshot_persist_aborts_the_accent_write() {
    let (mut window, mut desk) = accent_window();
    window.gallery.current = Some(foo());

    desk.config_locked = true;
    desk.send(&mut window, computed(200.0));
    desk.config_locked = false;

    assert_eq!(desk.themes, DEFAULTS, "themes untouched");
    assert_eq!(desk.writes, 0);
    assert_eq!(window.settings.config.accent_snapshot, None);
    assert_eq!(window.settings.config.accent_last_written, None);
    assert!(window.settings.config.accent_enabled, "still armed for a retry");

    // The retry lands whole once the config is writable again.
    desk.send(&mut window, computed(200.0));
    desk.settle_accent_tasks(&mut window);
    assert_eq!(
        window.settings.config.accent_last_written,
        Some(expected_pair(hue(200.0)))
    );
    assert_eq!(window.settings.config.accent_snapshot, Some(DEFAULTS));
    assert_eq!(desk.disk, window.settings.config);
}

#[test]
fn a_failed_last_written_persist_rolls_back_the_theme_write() {
    let (mut window, mut desk) = accent_window();
    start_disabled(&mut window, &mut desk);

    let user = user_accents();
    desk.themes = user;
    desk.send(&mut window, Message::SetAccentEnabled(true));
    assert_eq!(desk.disk.accent_snapshot, Some(user));

    window.gallery.current = Some(foo());
    desk.config_locked = true;
    desk.send(&mut window, computed(200.0));
    desk.settle_accent_tasks(&mut window);
    desk.config_locked = false;

    // Themes rolled back, nothing recorded, still enabled and armed.
    assert_eq!(desk.themes, user);
    assert_eq!(desk.writes, 2, "the write and its undoing");
    assert_eq!(window.settings.config.accent_last_written, None);
    assert_eq!(window.settings.config.accent_snapshot, Some(user));
    assert!(window.settings.config.accent_enabled);
    assert_eq!(desk.disk.accent_last_written, None);

    // The same recompute lands whole once the config is writable.
    desk.send(&mut window, computed(200.0));
    desk.settle_accent_tasks(&mut window);
    assert_eq!(
        window.settings.config.accent_last_written,
        Some(expected_pair(hue(200.0)))
    );
    assert_ne!(desk.themes, user);
    assert_eq!(desk.disk, window.settings.config);
}

#[test]
fn a_double_failure_rollback_repairs_the_on_disk_record() {
    let (mut window, mut desk) = accent_window();
    window.gallery.current = Some(foo());

    // A first write lands cleanly: the disk records the old pair.
    desk.send(&mut window, computed(200.0));
    desk.settle_accent_tasks(&mut window);
    let old_pair = expected_pair(hue(200.0));
    assert_eq!(desk.disk.accent_last_written, Some(old_pair));

    // A second write for a new hue: the theme write itself succeeds…
    desk.send(&mut window, computed(30.0));
    let inflight = window.accent.accent_inflight.unwrap();
    assert!(desk.run(accent_job(&inflight)));
    // …its record's persist fails (the rollback is chained)…
    desk.config_locked = true;
    let generation = window.accent.accent_write_generation;
    desk.complete(&mut window, generation, true);
    assert!(matches!(window.accent.accent_inflight, Some(AccentInflight::Rollback { .. })));
    // …and the rollback's theme restore fails as well; the persist failure
    // has passed by completion time.
    desk.themes_locked = true;
    let inflight = window.accent.accent_inflight.unwrap();
    assert!(!desk.run(accent_job(&inflight)));
    desk.config_locked = false;
    let generation = window.accent.accent_write_generation;
    desk.complete(&mut window, generation, false);
    desk.themes_locked = false;

    // The themes hold the new pair, and memory and the repaired record match
    // them…
    let new_pair = expected_pair(hue(30.0));
    assert_eq!(desk.themes, shown(new_pair));
    assert_eq!(window.settings.config.accent_last_written, Some(new_pair));
    assert_eq!(desk.disk.accent_last_written, Some(new_pair));
    // …so the startup plan over the persisted state is to skip.
    assert_eq!(
        plan(
            desk.disk.accent_enabled,
            desk.disk.accent_snapshot,
            desk.disk.accent_last_written,
            desk.themes,
            hue(30.0),
        ),
        AccentAction::Skip
    );
}

#[test]
fn a_gap_disarm_keeps_the_snapshot() {
    let (mut window, mut desk) = accent_window();
    let user = user_accents();
    window.settings.config.accent_snapshot = Some(user);
    desk.disk.accent_snapshot = Some(user);
    window.gallery.current = Some(foo());

    let foreign = AccentSnapshot { light: Some(Rgb(99, 88, 77)), dark: Some(Rgb(40, 50, 60)) };
    desk.themes = foreign;

    desk.send(&mut window, computed(200.0));

    assert!(!window.settings.config.accent_enabled);
    assert_eq!(window.settings.config.accent_snapshot, Some(user), "snapshot kept");
    assert_eq!(window.settings.config.accent_last_written, None);
    assert_eq!(desk.themes, foreign, "no restore on disarm — a genuine gap pick stands");
    assert_eq!(desk.disk, window.settings.config);
}

#[test]
fn disabling_without_theme_handles_keeps_the_snapshot() {
    let mut window = Window::default();
    window.settings.config.accent_enabled = true;
    let user = AccentSnapshot { light: Some(Rgb(10, 20, 30)), dark: None };
    window.settings.config.accent_snapshot = Some(user);
    window.settings.config.accent_last_written =
        Some(AccentPair { light: Rgb(1, 2, 3), dark: Rgb(4, 5, 6) });
    assert!(!window.accent.accent_handles);

    window.update(Message::SetAccentEnabled(false), 0);

    assert!(!window.settings.config.accent_enabled);
    assert_eq!(window.settings.config.accent_snapshot, Some(user), "snapshot kept");
    assert_eq!(window.settings.config.accent_last_written, None);
}

#[test]
fn enable_after_a_kept_snapshot_restores_it_instead_of_resnapshotting() {
    let (mut window, mut desk) = accent_window();
    start_disabled(&mut window, &mut desk);
    window.gallery.current = Some(foo());

    let user = user_accents();
    desk.themes = user;

    // Run A: enable + a landed write.
    desk.send(&mut window, Message::SetAccentEnabled(true));
    desk.send(&mut window, computed(200.0));
    desk.settle_accent_tasks(&mut window);
    let ours = desk.themes;
    assert_ne!(ours, user);

    // Run B: theme handles unavailable; disable keeps the snapshot.
    window.accent.accent_handles = false;
    desk.send(&mut window, Message::SetAccentEnabled(false));
    assert_eq!(window.settings.config.accent_snapshot, Some(user), "snapshot kept");

    // Run C: the themes open again; our accents are still there.
    window.accent.accent_handles = true;
    assert_eq!(desk.themes, ours);

    desk.send(&mut window, Message::SetAccentEnabled(true));
    desk.settle_accent_tasks(&mut window);
    assert_eq!(window.settings.config.accent_snapshot, Some(user));
    assert_eq!(window.settings.config.accent_last_written, None);
    assert_eq!(desk.themes, user);

    // The feature works — a compute lands without disarming…
    desk.send(&mut window, computed(30.0));
    desk.settle_accent_tasks(&mut window);
    assert!(window.settings.config.accent_enabled, "must not have disarmed");
    assert_ne!(desk.themes, user);

    // …and disable restores the true pre-feature accents, not run A's.
    desk.send(&mut window, Message::SetAccentEnabled(false));
    desk.settle_accent_tasks(&mut window);
    assert_eq!(desk.themes, user);
    assert_eq!(window.settings.config.accent_snapshot, None);
}

#[test]
fn enable_with_a_kept_snapshot_refuses_when_the_restore_fails() {
    let (mut window, mut desk) = accent_window();
    start_disabled(&mut window, &mut desk);
    let user = AccentSnapshot { light: Some(Rgb(10, 20, 30)), dark: None };
    window.settings.config.accent_snapshot = Some(user);

    desk.themes_locked = true;
    desk.send(&mut window, Message::SetAccentEnabled(true));
    desk.settle_accent_tasks(&mut window);
    desk.themes_locked = false;

    assert!(!window.settings.config.accent_enabled);
    assert_eq!(window.settings.config.accent_snapshot, Some(user), "snapshot kept");
    assert_eq!(window.settings.config.accent_last_written, None);
}

#[test]
fn external_flips_run_the_toggle_lifecycle() {
    let (mut window, mut desk) = accent_window();
    start_disabled(&mut window, &mut desk);
    let user = user_accents();
    desk.themes = user;

    // External enable: snapshot taken from the live accents.
    desk.disk.accent_enabled = true;
    let payload = desk.disk;
    desk.external(&mut window, payload);
    assert!(window.settings.config.accent_enabled);
    assert_eq!(window.settings.config.accent_snapshot, Some(user));
    assert_eq!(window.settings.config.accent_last_written, None);

    window.gallery.current = Some(foo());
    desk.send(&mut window, computed(200.0));
    desk.settle_accent_tasks(&mut window);
    assert_ne!(desk.themes, user);

    // External disable: restored and cleared, like the toggler's off path.
    desk.disk.accent_enabled = false;
    let payload = desk.disk;
    desk.external(&mut window, payload);
    desk.settle_accent_tasks(&mut window);
    assert!(!window.settings.config.accent_enabled);
    assert_eq!(window.settings.config.accent_snapshot, None);
    assert_eq!(window.settings.config.accent_last_written, None);
    assert_eq!(desk.themes, user);
}

#[test]
fn re_enable_re_snapshots_so_disable_restores_the_later_accents() {
    let (mut window, mut desk) = accent_window();
    start_disabled(&mut window, &mut desk);
    window.gallery.current = Some(foo());

    let original = user_accents();
    desk.themes = original;

    // Enable + first write.
    desk.send(&mut window, Message::SetAccentEnabled(true));
    assert_eq!(window.settings.config.accent_snapshot, Some(original));
    desk.send(&mut window, computed(200.0));
    desk.settle_accent_tasks(&mut window);

    // The user picks new accents; the next recompute disarms.
    let manual = AccentSnapshot { light: Some(Rgb(90, 90, 0)), dark: Some(Rgb(0, 90, 90)) };
    desk.themes = manual;
    desk.send(&mut window, computed(200.0));
    assert!(!window.settings.config.accent_enabled);
    assert_eq!(desk.themes, manual);

    // Re-enable snapshots *now* and a write lands.
    desk.send(&mut window, Message::SetAccentEnabled(true));
    assert_eq!(window.settings.config.accent_snapshot, Some(manual));
    desk.send(&mut window, computed(30.0));
    desk.settle_accent_tasks(&mut window);

    // Disable restores what re-enable captured, not the originals.
    desk.send(&mut window, Message::SetAccentEnabled(false));
    desk.settle_accent_tasks(&mut window);
    assert_eq!(desk.themes, manual);
    assert_ne!(desk.themes, original);
}

fn window_with_inflight_write() -> (Window, Desk) {
    let (mut window, mut desk) = accent_window();
    window.gallery.current = Some(foo());
    desk.send(&mut window, computed(200.0));
    assert!(
        matches!(window.accent.accent_inflight, Some(AccentInflight::Write { .. })),
        "the compute must have spawned a write task"
    );
    (window, desk)
}

#[test]
fn an_echo_during_an_inflight_write_leaves_the_accent_fields_alone() {
    let (mut window, mut desk) = window_with_inflight_write();
    let snapshot = window.settings.config.accent_snapshot;

    let echo = AppletConfig {
        accent_enabled: false,
        accent_snapshot: None,
        accent_last_written: None,
        retention_days: 30,
        ..window.settings.config
    };
    desk.disk.retention_days = 30;
    desk.external(&mut window, echo);

    assert!(window.settings.config.accent_enabled, "no disable routed");
    assert_eq!(window.settings.config.accent_snapshot, snapshot, "snapshot kept");
    assert!(
        matches!(window.accent.accent_inflight, Some(AccentInflight::Write { .. })),
        "the in-flight write survives the echo"
    );
    assert_eq!(window.settings.config.retention_days, 30, "non-accent fields adopt");

    // Completion: the write lands once, no second write cycle, no disarm.
    desk.settle_accent_tasks(&mut window);
    assert!(window.settings.config.accent_enabled);
    assert_eq!(
        window.settings.config.accent_last_written,
        Some(expected_pair(hue(200.0)))
    );
    assert_eq!(desk.disk, window.settings.config);
    assert_eq!(desk.writes, 1);
}

#[test]
fn a_stale_echo_after_completion_does_not_regress_accent_state() {
    let (mut window, mut desk) = accent_window();
    window.gallery.current = Some(foo());
    desk.send(&mut window, computed(200.0));
    // What the watcher read mid-flight.
    let stale = window.settings.config;
    assert_eq!(stale.accent_last_written, None);
    desk.settle_accent_tasks(&mut window);
    let written = window.settings.config.accent_last_written;
    assert!(written.is_some());
    let snapshot = window.settings.config.accent_snapshot;
    assert!(snapshot.is_some());

    // The stale echo lands one message after the completion.
    desk.external(&mut window, stale);
    assert_eq!(window.settings.config.accent_last_written, written, "no regress");
    assert_eq!(window.settings.config.accent_snapshot, snapshot);

    // A stale payload that *does* claim a flip is held against the disk.
    let torn = AppletConfig { accent_enabled: false, ..stale };
    desk.external(&mut window, torn);
    assert!(window.settings.config.accent_enabled, "stale flip not adopted");
    assert!(window.accent.accent_inflight.is_none(), "no lifecycle routed");
    assert_eq!(window.settings.config.accent_last_written, written);

    // And no disarm follows: the next recompute skips.
    desk.send(&mut window, computed(200.0));
    assert!(window.accent.accent_inflight.is_none(), "nothing rewritten");
    assert!(window.settings.config.accent_enabled, "no spurious disarm");
    assert_eq!(desk.disk, window.settings.config);
}

#[test]
fn a_stale_accent_write_completion_is_ignored() {
    let (mut window, mut desk) = window_with_inflight_write();

    desk.complete(&mut window, 0, true);
    assert!(
        window.accent.accent_inflight.is_some(),
        "the guard must survive a stale completion"
    );
    assert_eq!(
        window.settings.config.accent_last_written, None,
        "a stale completion must not persist a record"
    );

    // The real completion still lands normally.
    desk.settle_accent_tasks(&mut window);
    assert_eq!(
        window.settings.config.accent_last_written,
        Some(expected_pair(hue(200.0)))
    );
}

#[test]
fn an_accent_result_during_an_inflight_write_is_deferred_and_rearmed() {
    let (mut window, mut desk) = window_with_inflight_write();

    desk.send(&mut window, computed(30.0));
    assert!(window.accent.accent_recompute_queued, "deferred, not executed");
    assert!(
        matches!(window.accent.accent_inflight, Some(AccentInflight::Write { .. })),
        "still the first write, no second task"
    );

    // The completion re-arms a fresh compute.
    let inflight = window.accent.accent_inflight.unwrap();
    assert!(desk.run(accent_job(&inflight)));
    let generation = window.accent.accent_write_generation;
    let effects = desk.complete(&mut window, generation, true);
    assert_eq!(effects, vec![Effect::ComputeAccent { source: foo() }]);
    assert!(!window.accent.accent_recompute_queued);
    assert_eq!(
        window.settings.config.accent_last_written,
        Some(expected_pair(hue(200.0)))
    );
}

#[test]
fn the_post_task_reconcile_adopts_the_fresh_disk_state() {
    let (mut window, mut desk) = window_with_inflight_write();

    // A genuine external disable lands on the disk while the write flies.
    desk.disk.accent_enabled = false;
    let payload = desk.disk;
    desk.send(&mut window, Message::ConfigUpdated(payload));
    assert!(window.settings.config.accent_enabled, "echo suppressed mid-flight");

    // The completion routes the disable through the real lifecycle.
    desk.settle_accent_tasks(&mut window);
    assert!(!window.settings.config.accent_enabled);
    assert_eq!(window.settings.config.accent_snapshot, None);
    assert_eq!(window.settings.config.accent_last_written, None);
    assert_eq!(desk.themes, DEFAULTS, "the routed disable undid the landed write");
    assert!(!desk.disk.accent_enabled);
}

#[test]
fn a_toggle_during_an_inflight_write_is_deferred_to_the_reconcile() {
    let (mut window, mut desk) = window_with_inflight_write();

    desk.send(&mut window, Message::SetAccentEnabled(false));
    assert!(window.settings.config.accent_enabled, "the lifecycle itself is deferred");
    assert!(!window.accent_toggler_state(), "the row answers immediately");
    assert!(!desk.disk.accent_enabled, "pinned on disk");
    assert!(window.accent.accent_inflight.is_some());

    // Completion: the reconcile routes the real disable.
    desk.settle_accent_tasks(&mut window);
    assert!(!window.settings.config.accent_enabled);
    assert_eq!(window.settings.config.accent_snapshot, None);
    assert_eq!(window.settings.config.accent_last_written, None);
    assert_eq!(desk.themes, DEFAULTS);
    assert_eq!(desk.disk, window.settings.config);
}

#[test]
fn an_external_disable_during_an_enable_restore_is_not_stomped() {
    let (mut window, mut desk) = accent_window();
    start_disabled(&mut window, &mut desk);
    let user = user_accents();
    window.settings.config.accent_snapshot = Some(user);
    desk.disk = window.settings.config;
    // Our accents are still on the themes.
    desk.themes = shown(AccentPair { light: Rgb(1, 2, 3), dark: Rgb(4, 5, 6) });

    desk.disk.accent_enabled = true;
    let payload = desk.disk;
    desk.external(&mut window, payload);
    assert!(matches!(
        window.accent.accent_inflight,
        Some(AccentInflight::EnableRestore { .. })
    ));
    assert!(window.accent_toggler_state(), "an enable under way shows as on");

    // The external disable lands on disk mid-flight.
    desk.disk.accent_enabled = false;
    let payload = desk.disk;
    desk.external(&mut window, payload);
    assert!(window.accent.accent_inflight.is_some(), "the restore still flying");

    desk.settle_accent_tasks(&mut window);

    // The disable won, in memory and on disk.
    assert!(!window.settings.config.accent_enabled);
    assert!(!desk.disk.accent_enabled);
    assert_eq!(window.settings.config.accent_snapshot, None);
    assert_eq!(window.settings.config.accent_last_written, None);
    assert_eq!(desk.themes, user);
}

#[test]
fn an_external_enable_landing_during_a_disable_restore_is_routed_not_stomped() {
    let (mut window, mut desk) = accent_window();
    start_disabled(&mut window, &mut desk);
    let user = user_accents();
    desk.themes = user;

    // Enable + a landed write, then toggle off: the restore takes flight.
    desk.send(&mut window, Message::SetAccentEnabled(true));
    window.gallery.current = Some(foo());
    desk.send(&mut window, computed(200.0));
    desk.settle_accent_tasks(&mut window);
    desk.send(&mut window, Message::SetAccentEnabled(false));
    assert!(matches!(
        window.accent.accent_inflight,
        Some(AccentInflight::DisableRestore { .. })
    ));

    // The external enable lands on disk mid-flight.
    desk.disk.accent_enabled = true;
    let payload = desk.disk;
    desk.send(&mut window, Message::ConfigUpdated(payload));
    assert!(!window.settings.config.accent_enabled, "echo suppressed mid-flight");

    desk.settle_accent_tasks(&mut window);

    // The enable won, in memory and on disk, and captured the user's accents.
    assert!(window.settings.config.accent_enabled);
    assert!(desk.disk.accent_enabled);
    assert_eq!(window.settings.config.accent_snapshot, Some(user));
    assert_eq!(window.settings.config.accent_last_written, None);
    assert_eq!(desk.themes, user);
}

#[test]
fn a_peers_apply_leaves_the_accents_with_the_leader() {
    let (mut leader, mut desk) = accent_window();
    start_disabled(&mut leader, &mut desk);
    desk.send(&mut leader, Message::SetAccentEnabled(true));
    let path = foo();
    leader.peers.peer_apply_notice_generation = 1;
    let live = CurrentWallpaper::File(LiveFile { path: path.clone(), ours: true });
    let effects = desk.send(&mut leader, Message::PeerApplyValidated { generation: 1, live });
    assert_eq!(effects, vec![Effect::ComputeAccent { source: path.clone() }]);

    let mut follower = leader.clone();
    follower.role.leadership = Leadership::forced(false);
    let task = follower.finish_manual_apply(path.clone());
    assert!(!task.effects.contains(&Effect::ComputeAccent { source: path.clone() }));
    let task = follower.finish_accent_compute(path, hue(10.0));
    assert!(task.calls.is_empty() && task.effects.is_empty());
}

#[test]
fn only_a_cached_thumbnail_is_read_for_an_accent() {
    let thumbnail = PathBuf::from("/state/thumbs/a.jpg");
    assert_eq!(extract_accent_hue(false, Some(thumbnail.clone())), None);
    assert_eq!(extract_accent_hue(true, None), None);
    assert_eq!(extract_accent_hue(true, Some(thumbnail.clone())), Some(thumbnail));
    // A grey image is an answer, a failed extraction is none.
    assert_eq!(extracted_hue(Ok(None)), Some(None));
    assert_eq!(extracted_hue(Ok(hue(12.0))), Some(hue(12.0)));
    assert_eq!(extracted_hue(Err("ruined bytes".to_owned())), None);
}

#[test]
fn a_job_says_what_is_written() {
    let pair = expected_pair(hue(50.0));
    let builders = Builders { accents: DEFAULTS, token: 9 };
    let write = AccentInflight::Write { builders, pair, previous: DEFAULTS };
    assert_eq!(
        accent_job(&write),
        AccentJob::Write { builders, light: pair.light, dark: pair.dark }
    );
    let user = user_accents();
    for restore in [
        AccentInflight::DisableRestore { snapshot: user },
        AccentInflight::EnableRestore { snapshot: user },
        AccentInflight::Rollback { pair, previous: user },
    ] {
        assert_eq!(accent_job(&restore), AccentJob::Restore(user));
    }
}
