//! Persistent settings.
//!
//! The settings live in the COSMIC config namespace of [`crate::APP_ID`],
//! one stored entry per field, keyed by the field's name. This module lays
//! a [`CaffeineConfig`] out as those entries and reads one back from the
//! entries that could be read, field by field: a field whose entry is
//! missing or unreadable keeps its default, so one corrupt entry never
//! keeps the applet from running.

use vstd::prelude::*;

verus! {

/// Version of the stored configuration layout.
pub const CONFIG_VERSION: u64 = 1;

/// The user's preferences.
#[derive(Clone, Copy, Debug, PartialEq, Eq, Structural)]
pub struct CaffeineConfig {
    /// 0 = inhibit indefinitely (until toggled off).
    pub default_minutes: u32,
    pub inhibit_idle: bool,
    pub inhibit_sleep: bool,
    pub notify_on_toggle: bool,
}

/// The defaults: indefinite, inhibit both idle and sleep, no notification.
pub open spec fn default_config() -> CaffeineConfig {
    CaffeineConfig {
        default_minutes: 0,
        inhibit_idle: true,
        inhibit_sleep: true,
        notify_on_toggle: false,
    }
}

impl Default for CaffeineConfig {
    fn default() -> (cfg: Self)
        ensures
            cfg == default_config(),
    {
        CaffeineConfig {
            default_minutes: 0,
            inhibit_idle: true,
            inhibit_sleep: true,
            notify_on_toggle: false,
        }
    }
}

/// The stored entries, one per field of [`CaffeineConfig`].
#[derive(Clone, Copy, Debug, PartialEq, Eq, Structural)]
pub enum ConfigKey {
    DefaultMinutes,
    InhibitIdle,
    InhibitSleep,
    NotifyOnToggle,
}

/// The name under which an entry is stored: the field's name.
pub open spec fn key_name(key: ConfigKey) -> Seq<char> {
    match key {
        ConfigKey::DefaultMinutes => "default_minutes"@,
        ConfigKey::InhibitIdle => "inhibit_idle"@,
        ConfigKey::InhibitSleep => "inhibit_sleep"@,
        ConfigKey::NotifyOnToggle => "notify_on_toggle"@,
    }
}

/// Whether the entry under `key` holds a number (else a flag).
pub open spec fn key_holds_number(key: ConfigKey) -> bool {
    key == ConfigKey::DefaultMinutes
}

/// Every stored key, in field order.
pub open spec fn stored_keys() -> Seq<ConfigKey> {
    seq![
        ConfigKey::DefaultMinutes,
        ConfigKey::InhibitIdle,
        ConfigKey::InhibitSleep,
        ConfigKey::NotifyOnToggle,
    ]
}

/// Every stored key, in field order.
pub fn config_keys() -> (keys: Vec<ConfigKey>)
    ensures
        keys@ == stored_keys(),
{
    let mut keys: Vec<ConfigKey> = Vec::new();
    keys.push(ConfigKey::DefaultMinutes);
    keys.push(ConfigKey::InhibitIdle);
    keys.push(ConfigKey::InhibitSleep);
    keys.push(ConfigKey::NotifyOnToggle);
    assert(keys@ =~= stored_keys());
    keys
}

impl ConfigKey {
    /// Whether this entry holds a number ([`ConfigValue::Number`]); the
    /// others hold flags ([`ConfigValue::Flag`]).
    pub fn holds_number(&self) -> (b: bool)
        ensures
            b == key_holds_number(*self),
    {
        match self {
            ConfigKey::DefaultMinutes => true,
            _ => false,
        }
    }

    /// The name under which this entry is stored.
    pub fn name(&self) -> (s: &'static str)
        ensures
            s@ == key_name(*self),
            *self == ConfigKey::DefaultMinutes ==> s@ == "default_minutes"@,
            *self == ConfigKey::InhibitIdle ==> s@ == "inhibit_idle"@,
            *self == ConfigKey::InhibitSleep ==> s@ == "inhibit_sleep"@,
            *self == ConfigKey::NotifyOnToggle ==> s@ == "notify_on_toggle"@,
    {
        match self {
            ConfigKey::DefaultMinutes => "default_minutes",
            ConfigKey::InhibitIdle => "inhibit_idle",
            ConfigKey::InhibitSleep => "inhibit_sleep",
            ConfigKey::NotifyOnToggle => "notify_on_toggle",
        }
    }
}

/// A stored value: a number of minutes or a flag.
#[derive(Clone, Copy, Debug, PartialEq, Eq, Structural)]
pub enum ConfigValue {
    Number(u32),
    Flag(bool),
}

/// One stored entry.
#[derive(Clone, Copy, Debug, PartialEq, Eq, Structural)]
pub struct ConfigEntry {
    pub key: ConfigKey,
    pub value: ConfigValue,
}

/// The entries that store `cfg`, in field order.
pub open spec fn entries_of(cfg: CaffeineConfig) -> Seq<ConfigEntry> {
    seq![
        ConfigEntry { key: ConfigKey::DefaultMinutes, value: ConfigValue::Number(cfg.default_minutes) },
        ConfigEntry { key: ConfigKey::InhibitIdle, value: ConfigValue::Flag(cfg.inhibit_idle) },
        ConfigEntry { key: ConfigKey::InhibitSleep, value: ConfigValue::Flag(cfg.inhibit_sleep) },
        ConfigEntry { key: ConfigKey::NotifyOnToggle, value: ConfigValue::Flag(cfg.notify_on_toggle) },
    ]
}

/// The value of the first entry stored under `key`, if any.
pub open spec fn lookup(stored: Seq<ConfigEntry>, key: ConfigKey) -> Option<ConfigValue>
    decreases stored.len(),
{
    if stored.len() == 0 {
        None
    } else if stored[0].key == key {
        Some(stored[0].value)
    } else {
        lookup(stored.drop_first(), key)
    }
}

/// A number stored under `key`, or `default` when there is none.
pub open spec fn number_or(stored: Seq<ConfigEntry>, key: ConfigKey, default: u32) -> u32 {
    match lookup(stored, key) {
        Some(ConfigValue::Number(n)) => n,
        _ => default,
    }
}

/// A flag stored under `key`, or `default` when there is none.
pub open spec fn flag_or(stored: Seq<ConfigEntry>, key: ConfigKey, default: bool) -> bool {
    match lookup(stored, key) {
        Some(ConfigValue::Flag(b)) => b,
        _ => default,
    }
}

/// The configuration that the readable entries `stored` give: each field
/// from its entry, or its default where the entry is missing or holds a
/// value of the wrong kind.
pub open spec fn config_from(stored: Seq<ConfigEntry>) -> CaffeineConfig {
    let d = default_config();
    CaffeineConfig {
        default_minutes: number_or(stored, ConfigKey::DefaultMinutes, d.default_minutes),
        inhibit_idle: flag_or(stored, ConfigKey::InhibitIdle, d.inhibit_idle),
        inhibit_sleep: flag_or(stored, ConfigKey::InhibitSleep, d.inhibit_sleep),
        notify_on_toggle: flag_or(stored, ConfigKey::NotifyOnToggle, d.notify_on_toggle),
    }
}

/// The entries to store for `cfg`: one per field, in field order.
pub fn save(cfg: &CaffeineConfig) -> (entries: Vec<ConfigEntry>)
    ensures
        entries@ == entries_of(*cfg),
        entries@.len() == 4,
        entries@[0] == (ConfigEntry { key: ConfigKey::DefaultMinutes, value: ConfigValue::Number(cfg.default_minutes) }),
        entries@[1] == (ConfigEntry { key: ConfigKey::InhibitIdle, value: ConfigValue::Flag(cfg.inhibit_idle) }),
        entries@[2] == (ConfigEntry { key: ConfigKey::InhibitSleep, value: ConfigValue::Flag(cfg.inhibit_sleep) }),
        entries@[3] == (ConfigEntry { key: ConfigKey::NotifyOnToggle, value: ConfigValue::Flag(cfg.notify_on_toggle) }),
{
    let mut entries: Vec<ConfigEntry> = Vec::new();
    entries.push(
        ConfigEntry { key: ConfigKey::DefaultMinutes, value: ConfigValue::Number(cfg.default_minutes) },
    );
    entries.push(ConfigEntry { key: ConfigKey::InhibitIdle, value: ConfigValue::Flag(cfg.inhibit_idle) });
    entries.push(
        ConfigEntry { key: ConfigKey::InhibitSleep, value: ConfigValue::Flag(cfg.inhibit_sleep) },
    );
    entries.push(
        ConfigEntry { key: ConfigKey::NotifyOnToggle, value: ConfigValue::Flag(cfg.notify_on_toggle) },
    );
    assert(entries@ =~= entries_of(*cfg));
    entries
}

/// The value of the first entry under `key`.
fn lookup_entry(stored: &Vec<ConfigEntry>, key: ConfigKey) -> (r: Option<ConfigValue>)
    ensures
        r == lookup(stored@, key),
{
    let mut i: usize = 0;
    assert(stored@.skip(0) =~= stored@);
    while i < stored.len()
        invariant
            i <= stored@.len(),
            lookup(stored@, key) == lookup(stored@.skip(i as int), key),
        decreases stored@.len() - i,
    {
        let e = stored[i];
        assert(stored@.skip(i as int)[0] == e);
        assert(stored@.skip(i as int).drop_first() =~= stored@.skip(i + 1));
        if e.key == key {
            return Some(e.value);
        }
        i = i + 1;
    }
    assert(stored@.skip(i as int).len() == 0);
    None
}

/// The configuration from the entries that could be read: each field from
/// its entry, the default where there is none (see [`config_from`]).
pub fn load(stored: &Vec<ConfigEntry>) -> (cfg: CaffeineConfig)
    ensures
        cfg == config_from(stored@),
{
    let mut cfg = CaffeineConfig::default();
    match lookup_entry(stored, ConfigKey::DefaultMinutes) {
        Some(ConfigValue::Number(n)) => {
            cfg.default_minutes = n;
        },
        _ => {},
    }
    match lookup_entry(stored, ConfigKey::InhibitIdle) {
        Some(ConfigValue::Flag(b)) => {
            cfg.inhibit_idle = b;
        },
        _ => {},
    }
    match lookup_entry(stored, ConfigKey::InhibitSleep) {
        Some(ConfigValue::Flag(b)) => {
            cfg.inhibit_sleep = b;
        },
        _ => {},
    }
    match lookup_entry(stored, ConfigKey::NotifyOnToggle) {
        Some(ConfigValue::Flag(b)) => {
            cfg.notify_on_toggle = b;
        },
        _ => {},
    }
    cfg
}

/// The lookup in a sequence of at most four entries.
proof fn lemma_lookup_short(s: Seq<ConfigEntry>, key: ConfigKey)
    requires
        s.len() <= 4,
    ensures
        lookup(s, key) == (if s.len() > 0 && s[0].key == key {
            Some(s[0].value)
        } else if s.len() > 1 && s[1].key == key {
            Some(s[1].value)
        } else if s.len() > 2 && s[2].key == key {
            Some(s[2].value)
        } else if s.len() > 3 && s[3].key == key {
            Some(s[3].value)
        } else {
            None
        }),
    decreases s.len(),
{
    if s.len() > 0 {
        let t = s.drop_first();
        lemma_lookup_short(t, key);
        assert(t.len() > 0 ==> t[0] == s[1]);
        assert(t.len() > 1 ==> t[1] == s[2]);
        assert(t.len() > 2 ==> t[2] == s[3]);
    }
}

/// Law: reading back what [`save`] stores gives the same configuration.
pub proof fn lemma_load_after_save(cfg: CaffeineConfig)
    ensures
        config_from(entries_of(cfg)) == cfg,
{
    let s = entries_of(cfg);
    lemma_lookup_short(s, ConfigKey::DefaultMinutes);
    lemma_lookup_short(s, ConfigKey::InhibitIdle);
    lemma_lookup_short(s, ConfigKey::InhibitSleep);
    lemma_lookup_short(s, ConfigKey::NotifyOnToggle);
}

/// Law: [`save`] stores one entry per key of [`config_keys`], in that
/// order, each holding a value of its key's kind.
pub proof fn lemma_entries_follow_keys(cfg: CaffeineConfig)
    ensures
        entries_of(cfg).len() == stored_keys().len(),
        forall|i: int|
            0 <= i < stored_keys().len() ==> {
                &&& (#[trigger] entries_of(cfg)[i]).key == stored_keys()[i]
                &&& (entries_of(cfg)[i].value is Number <==> key_holds_number(stored_keys()[i]))
            },
{
}

/// Law: with nothing readable (no config directory, or every entry
/// corrupt) the configuration is the default one.
pub proof fn lemma_load_nothing()
    ensures
        config_from(Seq::<ConfigEntry>::empty()) == default_config(),
{
}

/// Law: a field whose entry is missing falls back to its default while
/// the other fields keep their stored values.
pub proof fn lemma_missing_minutes_falls_back(cfg: CaffeineConfig)
    ensures
        config_from(entries_of(cfg).drop_first()) == (CaffeineConfig {
            default_minutes: default_config().default_minutes,
            ..cfg
        }),
{
    let s = entries_of(cfg).drop_first();
    lemma_lookup_short(s, ConfigKey::DefaultMinutes);
    lemma_lookup_short(s, ConfigKey::InhibitIdle);
    lemma_lookup_short(s, ConfigKey::InhibitSleep);
    lemma_lookup_short(s, ConfigKey::NotifyOnToggle);
}

} // verus!
