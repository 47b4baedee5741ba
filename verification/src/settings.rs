//! The applet's persisted settings, the single-key writes they are persisted
//! by, and the user-facing subset the popup's controls change.

use vstd::prelude::*;

verus! {

/// A colour, one byte per channel.
#[derive(Clone, Copy, Debug, PartialEq, Eq, Structural)]
pub struct Rgb(pub u8, pub u8, pub u8);

/// The accents both themes held before the accent feature touched them;
/// `None` stands for the palette's default.
#[derive(Clone, Copy, Debug, PartialEq, Eq, Structural)]
pub struct AccentSnapshot {
    pub light: Option<Rgb>,
    pub dark: Option<Rgb>,
}

/// The accents the feature itself last wrote.
#[derive(Clone, Copy, Debug, PartialEq, Eq, Structural)]
pub struct AccentPair {
    pub light: Rgb,
    pub dark: Rgb,
}

/// The applet's settings entry.
#[derive(Clone, Copy, Debug, PartialEq, Eq, Structural)]
pub struct AppletConfig {
    pub shuffle_enabled: bool,
    pub shuffle_interval_secs: u32,
    /// Days an image is kept; `0` keeps everything.
    pub retention_days: u16,
    pub accent_enabled: bool,
    /// The user's own accents, to be put back when the feature goes off.
    pub accent_snapshot: Option<AccentSnapshot>,
    /// What the feature wrote last, so that it never overwrites a choice of
    /// the user's.
    pub accent_last_written: Option<AccentPair>,
}

/// Settings before anything was loaded.
pub open spec fn default_config() -> AppletConfig {
    AppletConfig {
        shuffle_enabled: false,
        shuffle_interval_secs: 86_400,
        retention_days: 8,
        accent_enabled: false,
        accent_snapshot: None,
        accent_last_written: None,
    }
}

impl Default for AppletConfig {
    fn default() -> (config: AppletConfig)
        ensures
            config == default_config(),
    {
        AppletConfig {
            shuffle_enabled: false,
            shuffle_interval_secs: 86_400,
            retention_days: 8,
            accent_enabled: false,
            accent_snapshot: None,
            accent_last_written: None,
        }
    }
}

/// One key of the settings entry with the value to write under it.
#[derive(Clone, Copy, Debug, PartialEq, Eq, Structural)]
pub enum ConfigWrite {
    ShuffleEnabled(bool),
    ShuffleInterval(u32),
    Retention(u16),
    AccentEnabled(bool),
    AccentSnapshot(Option<AccentSnapshot>),
    AccentLastWritten(Option<AccentPair>),
}

/// `write` as a list of one when `changed`, else nothing.
pub open spec fn write_if(changed: bool, write: ConfigWrite) -> Seq<ConfigWrite> {
    if changed {
        seq![write]
    } else {
        Seq::empty()
    }
}

/// The keys on which `new` differs from `old`, in the order of the entry, each
/// with its new value.
pub open spec fn changed_writes(old: AppletConfig, new: AppletConfig) -> Seq<ConfigWrite> {
    write_if(old.shuffle_enabled != new.shuffle_enabled, ConfigWrite::ShuffleEnabled(
        new.shuffle_enabled,
    )) + write_if(
        old.shuffle_interval_secs != new.shuffle_interval_secs,
        ConfigWrite::ShuffleInterval(new.shuffle_interval_secs),
    ) + write_if(
        old.retention_days != new.retention_days,
        ConfigWrite::Retention(new.retention_days),
    ) + write_if(
        old.accent_enabled != new.accent_enabled,
        ConfigWrite::AccentEnabled(new.accent_enabled),
    ) + write_if(
        old.accent_snapshot != new.accent_snapshot,
        ConfigWrite::AccentSnapshot(new.accent_snapshot),
    ) + write_if(
        old.accent_last_written != new.accent_last_written,
        ConfigWrite::AccentLastWritten(new.accent_last_written),
    )
}

/// A setting one of the popup's controls changes.
#[derive(Clone, Copy, Debug, PartialEq, Eq, Structural)]
pub enum AppletSetting {
    ShuffleEnabled(bool),
    ShuffleInterval(u32),
    Retention(u16),
    AccentEnabled(bool),
}

/// How many settings the popup's controls change.
pub const SETTING_SLOTS: usize = 4;

/// The settings with `setting` taken over.
pub open spec fn adopted(config: AppletConfig, setting: AppletSetting) -> AppletConfig {
    match setting {
        AppletSetting::ShuffleEnabled(value) => AppletConfig { shuffle_enabled: value, ..config },
        AppletSetting::ShuffleInterval(value) => AppletConfig {
            shuffle_interval_secs: value,
            ..config
        },
        AppletSetting::Retention(value) => AppletConfig { retention_days: value, ..config },
        AppletSetting::AccentEnabled(value) => AppletConfig { accent_enabled: value, ..config },
    }
}

impl AppletSetting {
    /// The number of the setting, whatever its value.
    pub open spec fn slot_spec(self) -> int {
        match self {
            AppletSetting::ShuffleEnabled(_) => 0,
            AppletSetting::ShuffleInterval(_) => 1,
            AppletSetting::Retention(_) => 2,
            AppletSetting::AccentEnabled(_) => 3,
        }
    }

    /// The key the setting is stored under.
    pub open spec fn key_spec(self) -> Seq<char> {
        match self {
            AppletSetting::ShuffleEnabled(_) => "shuffle_enabled"@,
            AppletSetting::ShuffleInterval(_) => "shuffle_interval_secs"@,
            AppletSetting::Retention(_) => "retention_days"@,
            AppletSetting::AccentEnabled(_) => "accent_enabled"@,
        }
    }

    /// Which of the per-setting counters belongs to this setting.
    pub fn slot(self) -> (slot: usize)
        ensures
            slot == self.slot_spec(),
            slot < SETTING_SLOTS,
    {
        match self {
            AppletSetting::ShuffleEnabled(_) => 0,
            AppletSetting::ShuffleInterval(_) => 1,
            AppletSetting::Retention(_) => 2,
            AppletSetting::AccentEnabled(_) => 3,
        }
    }

    /// The key this setting is persisted under.
    pub fn key(self) -> (key: &'static str)
        ensures
            key@ == self.key_spec(),
    {
        match self {
            AppletSetting::ShuffleEnabled(_) => "shuffle_enabled",
            AppletSetting::ShuffleInterval(_) => "shuffle_interval_secs",
            AppletSetting::Retention(_) => "retention_days",
            AppletSetting::AccentEnabled(_) => "accent_enabled",
        }
    }

    /// Takes the setting over into `config`; every other field stays.
    pub fn adopt(self, config: &mut AppletConfig)
        ensures
            *final(config) == adopted(*old(config), self),
    {
        match self {
            AppletSetting::ShuffleEnabled(value) => config.shuffle_enabled = value,
            AppletSetting::ShuffleInterval(value) => config.shuffle_interval_secs = value,
            AppletSetting::Retention(value) => config.retention_days = value,
            AppletSetting::AccentEnabled(value) => config.accent_enabled = value,
        }
    }

    /// The single-key write that persists this setting and no other.
    pub open spec fn persist_spec(self) -> ConfigWrite {
        match self {
            AppletSetting::ShuffleEnabled(value) => ConfigWrite::ShuffleEnabled(value),
            AppletSetting::ShuffleInterval(value) => ConfigWrite::ShuffleInterval(value),
            AppletSetting::Retention(value) => ConfigWrite::Retention(value),
            AppletSetting::AccentEnabled(value) => ConfigWrite::AccentEnabled(value),
        }
    }

    /// The single-key write that persists this setting and no other.
    pub fn persist(self) -> (write: ConfigWrite)
        ensures
            write == self.persist_spec(),
    {
        match self {
            AppletSetting::ShuffleEnabled(value) => ConfigWrite::ShuffleEnabled(value),
            AppletSetting::ShuffleInterval(value) => ConfigWrite::ShuffleInterval(value),
            AppletSetting::Retention(value) => ConfigWrite::Retention(value),
            AppletSetting::AccentEnabled(value) => ConfigWrite::AccentEnabled(value),
        }
    }
}

/// The values the popup's dropdowns offer, in the order they are shown. No
/// other retention is supported, but for the default.
#[derive(Clone, Debug, PartialEq, Eq)]
pub struct Choices {
    /// Shuffle intervals in seconds.
    pub intervals: Vec<u32>,
    /// Retentions in days; `0` keeps everything.
    pub retentions: Vec<u16>,
}

/// The values the dropdowns offer, as sequences.
#[verifier::ext_equal]
pub struct ChoicesView {
    pub intervals: Seq<u32>,
    pub retentions: Seq<u16>,
}

impl View for Choices {
    type V = ChoicesView;

    open spec fn view(&self) -> ChoicesView {
        ChoicesView { intervals: self.intervals@, retentions: self.retentions@ }
    }
}

/// What the dropdowns offer where the shell names nothing else.
pub open spec fn default_choices() -> ChoicesView {
    ChoicesView { intervals: seq![1_800u32, 3_600, 86_400], retentions: seq![3u16, 8, 30, 0] }
}

impl Default for Choices {
    fn default() -> (choices: Choices)
        ensures
            choices@ == default_choices(),
    {
        let choices: Choices = Choices {
            intervals: vec![1_800, 3_600, 86_400],
            retentions: vec![3, 8, 30, 0],
        };
        assert(choices@ =~= default_choices());
        choices
    }
}

impl ChoicesView {
    /// The interval under `index`; an index no dropdown has gives the
    /// default.
    pub open spec fn interval_at(self, index: int) -> u32 {
        if 0 <= index < self.intervals.len() {
            self.intervals[index]
        } else {
            default_config().shuffle_interval_secs
        }
    }

    /// The retention under `index`; an index no dropdown has gives the
    /// default.
    pub open spec fn retention_at(self, index: int) -> u16 {
        if 0 <= index < self.retentions.len() {
            self.retentions[index]
        } else {
            default_config().retention_days
        }
    }

    /// Whether settings hold a retention that is supported.
    pub open spec fn support(self, config: AppletConfig) -> bool {
        self.retentions.contains(config.retention_days) || config.retention_days
            == default_config().retention_days
    }

    /// Whether taking `setting` over leaves supported settings supported.
    pub open spec fn support_setting(self, setting: AppletSetting) -> bool {
        match setting {
            AppletSetting::Retention(value) => self.retentions.contains(value) || value
                == default_config().retention_days,
            _ => true,
        }
    }
}

/// Settings with an unsupported retention replaced by the default: one that
/// no dropdown offers would delete or fetch what the user never asked for.
/// Everything else is kept, the shuffle interval as it was read; what is wrong
/// with that is put right when a timer is armed with it.
pub open spec fn normalized(config: AppletConfig, choices: ChoicesView) -> AppletConfig {
    AppletConfig {
        retention_days: if choices.retentions.contains(config.retention_days) {
            config.retention_days
        } else {
            default_config().retention_days
        },
        ..config
    }
}

impl Choices {
    /// Whether the retention dropdown offers `days`.
    pub fn offers_retention(&self, days: u16) -> (offered: bool)
        ensures
            offered == self@.retentions.contains(days),
    {
        let mut at: usize = 0;
        while at < self.retentions.len()
            invariant
                at <= self.retentions.len(),
                forall|i: int| 0 <= i < at ==> self.retentions@[i] != days,
            decreases self.retentions.len() - at,
        {
            if self.retentions[at] == days {
                return true;
            }
            at = at + 1;
        }
        false
    }

    /// The shuffle interval that stands at `index` of its dropdown.
    pub fn shuffle_interval_secs(&self, index: usize) -> (seconds: u32)
        ensures
            seconds == self@.interval_at(index as int),
    {
        if index < self.intervals.len() {
            self.intervals[index]
        } else {
            AppletConfig::default().shuffle_interval_secs
        }
    }

    /// The retention that stands at `index` of its dropdown.
    pub fn retention_days(&self, index: usize) -> (days: u16)
        ensures
            days == self@.retention_at(index as int),
    {
        if index < self.retentions.len() {
            self.retentions[index]
        } else {
            AppletConfig::default().retention_days
        }
    }
}

/// Replaces an unsupported retention by the default, so that a hand-edited
/// entry never drives a prune or a fetch.
pub fn normalize(config: AppletConfig, choices: &Choices) -> (normal: AppletConfig)
    ensures
        normal == normalized(config, choices@),
{
    let mut normal: AppletConfig = config;
    if !choices.offers_retention(config.retention_days) {
        normal.retention_days = AppletConfig::default().retention_days;
    }
    normal
}

/// Normalised settings are supported ones, supported settings are left as
/// they are, and so normalising twice is normalising once. Nothing but the
/// retention is touched.
pub proof fn normalizing_gives_supported_settings(config: AppletConfig, choices: ChoicesView)
    ensures
        choices.support(normalized(config, choices)),
        choices.support(config) ==> normalized(config, choices) == config,
        normalized(normalized(config, choices), choices) == normalized(config, choices),
        normalized(config, choices) == (AppletConfig {
            retention_days: normalized(config, choices).retention_days,
            ..config
        }),
{
}

/// Whatever index a dropdown reports, taking the value under it over keeps
/// supported settings supported.
pub proof fn dropdowns_offer_supported_values(
    choices: ChoicesView,
    index: int,
    config: AppletConfig,
)
    requires
        choices.support(config),
    ensures
        ({
            let interval = AppletSetting::ShuffleInterval(choices.interval_at(index));
            let retention = AppletSetting::Retention(choices.retention_at(index));
            &&& choices.support_setting(interval)
            &&& choices.support_setting(retention)
            &&& choices.support(adopted(config, interval))
            &&& choices.support(adopted(config, retention))
        }),
{
}

/// The settings after a single-key write landed.
pub open spec fn written(config: AppletConfig, write: ConfigWrite) -> AppletConfig {
    match write {
        ConfigWrite::ShuffleEnabled(value) => AppletConfig { shuffle_enabled: value, ..config },
        ConfigWrite::ShuffleInterval(value) => AppletConfig {
            shuffle_interval_secs: value,
            ..config
        },
        ConfigWrite::Retention(value) => AppletConfig { retention_days: value, ..config },
        ConfigWrite::AccentEnabled(value) => AppletConfig { accent_enabled: value, ..config },
        ConfigWrite::AccentSnapshot(value) => AppletConfig { accent_snapshot: value, ..config },
        ConfigWrite::AccentLastWritten(value) => AppletConfig {
            accent_last_written: value,
            ..config
        },
    }
}

/// The settings after a list of single-key writes landed one after the other.
pub open spec fn written_all(config: AppletConfig, writes: Seq<ConfigWrite>) -> AppletConfig
    decreases writes.len(),
{
    if writes.len() == 0 {
        config
    } else {
        written(written_all(config, writes.drop_last()), writes.last())
    }
}

/// Lists the changed keys of a settings transition, so that only those are
/// persisted: another process may have written an unrelated key meanwhile.
pub fn list_changed_writes(old: AppletConfig, new: AppletConfig) -> (writes: Vec<ConfigWrite>)
    ensures
        writes@ == changed_writes(old, new),
{
    let mut writes: Vec<ConfigWrite> = Vec::new();
    if old.shuffle_enabled != new.shuffle_enabled {
        writes.push(ConfigWrite::ShuffleEnabled(new.shuffle_enabled));
    }
    if old.shuffle_interval_secs != new.shuffle_interval_secs {
        writes.push(ConfigWrite::ShuffleInterval(new.shuffle_interval_secs));
    }
    if old.retention_days != new.retention_days {
        writes.push(ConfigWrite::Retention(new.retention_days));
    }
    if old.accent_enabled != new.accent_enabled {
        writes.push(ConfigWrite::AccentEnabled(new.accent_enabled));
    }
    if old.accent_snapshot != new.accent_snapshot {
        writes.push(ConfigWrite::AccentSnapshot(new.accent_snapshot));
    }
    if old.accent_last_written != new.accent_last_written {
        writes.push(ConfigWrite::AccentLastWritten(new.accent_last_written));
    }
    writes
}

/// Persisting a setting stores exactly what taking it over sets: the one field
/// changes, and every other keeps its value.
pub proof fn persisting_stores_what_adopting_sets(config: AppletConfig, setting: AppletSetting)
    ensures
        written(config, setting.persist_spec()) == adopted(config, setting),
{
}

/// Different settings live in different slots and under different keys.
pub proof fn settings_do_not_share_slots(one: AppletSetting, other: AppletSetting)
    requires
        one.slot_spec() != other.slot_spec(),
    ensures
        forall|config: AppletConfig| #[trigger]
            adopted(adopted(config, one), other) == adopted(adopted(config, other), one),
        one.key_spec() != other.key_spec(),
{
    reveal_strlit("shuffle_enabled");
    reveal_strlit("shuffle_interval_secs");
    reveal_strlit("retention_days");
    reveal_strlit("accent_enabled");
    assert("shuffle_enabled"@[0] == 's' && "shuffle_interval_secs"@[0] == 's'
        && "retention_days"@[0] == 'r' && "accent_enabled"@[0] == 'a');
    assert("shuffle_enabled"@.len() != "shuffle_interval_secs"@.len());
}

proof fn written_all_of_a_sum(config: AppletConfig, one: Seq<ConfigWrite>, other: Seq<ConfigWrite>)
    ensures
        written_all(config, one + other) == written_all(written_all(config, one), other),
    decreases other.len(),
{
    if other.len() == 0 {
        assert(one + other == one);
    } else {
        written_all_of_a_sum(config, one, other.drop_last());
        assert((one + other).drop_last() == one + other.drop_last());
    }
}

proof fn written_if(config: AppletConfig, changed: bool, write: ConfigWrite)
    ensures
        written_all(config, write_if(changed, write)) == (if changed {
            written(config, write)
        } else {
            config
        }),
{
    if changed {
        assert(seq![write].drop_last() == Seq::<ConfigWrite>::empty());
        assert(written_all(config, seq![write].drop_last()) == config);
    }
}

/// Persisting a settings transition key by key turns the old settings into
/// the new ones; and where another process has written a key that did not
/// change here, that key keeps the other's value.
pub proof fn changed_writes_touch_changed_keys_only(
    old: AppletConfig,
    new: AppletConfig,
    disk: AppletConfig,
)
    ensures
        disk == old ==> written_all(disk, changed_writes(old, new)) == new,
        written_all(disk, changed_writes(old, new)) == (AppletConfig {
            shuffle_enabled: if old.shuffle_enabled != new.shuffle_enabled {
                new.shuffle_enabled
            } else {
                disk.shuffle_enabled
            },
            shuffle_interval_secs: if old.shuffle_interval_secs != new.shuffle_interval_secs {
                new.shuffle_interval_secs
            } else {
                disk.shuffle_interval_secs
            },
            retention_days: if old.retention_days != new.retention_days {
                new.retention_days
            } else {
                disk.retention_days
            },
            accent_enabled: if old.accent_enabled != new.accent_enabled {
                new.accent_enabled
            } else {
                disk.accent_enabled
            },
            accent_snapshot: if old.accent_snapshot != new.accent_snapshot {
                new.accent_snapshot
            } else {
                disk.accent_snapshot
            },
            accent_last_written: if old.accent_last_written != new.accent_last_written {
                new.accent_last_written
            } else {
                disk.accent_last_written
            },
        }),
{
    let w1 = ConfigWrite::ShuffleEnabled(new.shuffle_enabled);
    let w2 = ConfigWrite::ShuffleInterval(new.shuffle_interval_secs);
    let w3 = ConfigWrite::Retention(new.retention_days);
    let w4 = ConfigWrite::AccentEnabled(new.accent_enabled);
    let w5 = ConfigWrite::AccentSnapshot(new.accent_snapshot);
    let w6 = ConfigWrite::AccentLastWritten(new.accent_last_written);
    let c1 = old.shuffle_enabled != new.shuffle_enabled;
    let c2 = old.shuffle_interval_secs != new.shuffle_interval_secs;
    let c3 = old.retention_days != new.retention_days;
    let c4 = old.accent_enabled != new.accent_enabled;
    let c5 = old.accent_snapshot != new.accent_snapshot;
    let c6 = old.accent_last_written != new.accent_last_written;
    let s1 = write_if(c1, w1);
    let s2 = s1 + write_if(c2, w2);
    let s3 = s2 + write_if(c3, w3);
    let s4 = s3 + write_if(c4, w4);
    let s5 = s4 + write_if(c5, w5);
    written_if(disk, c1, w1);
    written_all_of_a_sum(disk, s1, write_if(c2, w2));
    written_if(written_all(disk, s1), c2, w2);
    written_all_of_a_sum(disk, s2, write_if(c3, w3));
    written_if(written_all(disk, s2), c3, w3);
    written_all_of_a_sum(disk, s3, write_if(c4, w4));
    written_if(written_all(disk, s3), c4, w4);
    written_all_of_a_sum(disk, s4, write_if(c5, w5));
    written_if(written_all(disk, s4), c5, w5);
    written_all_of_a_sum(disk, s5, write_if(c6, w6));
    written_if(written_all(disk, s5), c6, w6);
}

} // verus!
