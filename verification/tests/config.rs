use cosmic_caffeine::config::{config_keys, load, save, CaffeineConfig, ConfigEntry, ConfigKey, ConfigValue, CONFIG_VERSION};

fn sample() -> CaffeineConfig {
    CaffeineConfig { default_minutes: 30, inhibit_idle: false, inhibit_sleep: true, notify_on_toggle: true }
}

#[test]
fn defaults() {
    let d = CaffeineConfig::default();
    assert_eq!(d.default_minutes, 0);
    assert!(d.inhibit_idle);
    assert!(d.inhibit_sleep);
    assert!(!d.notify_on_toggle);
    assert_eq!(CONFIG_VERSION, 1);
}

#[test]
fn save_lays_out_one_entry_per_field() {
    let entries = save(&sample());
    assert_eq!(
        entries,
        vec![
            ConfigEntry { key: ConfigKey::DefaultMinutes, value: ConfigValue::Number(30) },
            ConfigEntry { key: ConfigKey::InhibitIdle, value: ConfigValue::Flag(false) },
            ConfigEntry { key: ConfigKey::InhibitSleep, value: ConfigValue::Flag(true) },
            ConfigEntry { key: ConfigKey::NotifyOnToggle, value: ConfigValue::Flag(true) },
        ]
    );
}

#[test]
fn key_names_are_the_field_names() {
    assert_eq!(ConfigKey::DefaultMinutes.name(), "default_minutes");
    assert_eq!(ConfigKey::InhibitIdle.name(), "inhibit_idle");
    assert_eq!(ConfigKey::InhibitSleep.name(), "inhibit_sleep");
    assert_eq!(ConfigKey::NotifyOnToggle.name(), "notify_on_toggle");
}

#[test]
fn load_after_save_gives_the_config_back() {
    for cfg in [sample(), CaffeineConfig::default(), CaffeineConfig { default_minutes: u32::MAX, inhibit_idle: true, inhibit_sleep: false, notify_on_toggle: false }] {
        assert_eq!(load(&save(&cfg)), cfg);
    }
}

#[test]
fn nothing_readable_gives_the_defaults() {
    assert_eq!(load(&Vec::new()), CaffeineConfig::default());
}

#[test]
fn missing_entry_falls_back_for_that_field_only() {
    let mut entries = save(&sample());
    entries.remove(0);
    assert_eq!(load(&entries), CaffeineConfig { default_minutes: 0, ..sample() });
    let mut entries = save(&sample());
    entries.remove(1);
    assert_eq!(load(&entries), CaffeineConfig { inhibit_idle: true, ..sample() });
}

#[test]
fn value_of_the_wrong_kind_falls_back() {
    let entries = vec![
        ConfigEntry { key: ConfigKey::DefaultMinutes, value: ConfigValue::Flag(true) },
        ConfigEntry { key: ConfigKey::NotifyOnToggle, value: ConfigValue::Number(1) },
        ConfigEntry { key: ConfigKey::InhibitSleep, value: ConfigValue::Flag(false) },
    ];
    assert_eq!(
        load(&entries),
        CaffeineConfig { default_minutes: 0, inhibit_idle: true, inhibit_sleep: false, notify_on_toggle: false }
    );
}

#[test]
fn first_entry_for_a_key_wins() {
    let entries = vec![
        ConfigEntry { key: ConfigKey::DefaultMinutes, value: ConfigValue::Number(5) },
        ConfigEntry { key: ConfigKey::DefaultMinutes, value: ConfigValue::Number(60) },
    ];
    assert_eq!(load(&entries).default_minutes, 5);
}

#[test]
fn keys_in_field_order_with_their_kinds() {
    let keys = config_keys();
    assert_eq!(
        keys,
        vec![ConfigKey::DefaultMinutes, ConfigKey::InhibitIdle, ConfigKey::InhibitSleep, ConfigKey::NotifyOnToggle]
    );
    assert!(ConfigKey::DefaultMinutes.holds_number());
    assert!(!ConfigKey::InhibitIdle.holds_number());
    assert!(!ConfigKey::InhibitSleep.holds_number());
    assert!(!ConfigKey::NotifyOnToggle.holds_number());
    for (entry, key) in save(&CaffeineConfig::default()).iter().zip(keys) {
        assert_eq!(entry.key, key);
        assert_eq!(matches!(entry.value, ConfigValue::Number(_)), key.holds_number());
    }
}
