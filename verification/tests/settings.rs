use cosmic_caffeine::config::{load, save, CaffeineConfig};
use cosmic_caffeine::settings::{App, Message, SaveRequest, SaveStatus};

fn sample() -> CaffeineConfig {
    CaffeineConfig { default_minutes: 45, inhibit_idle: true, inhibit_sleep: false, notify_on_toggle: true }
}

#[test]
fn opens_on_the_stored_config() {
    let app = App::init(&sample(), false);
    assert_eq!(app.default_minutes_text, "45");
    assert!(app.inhibit_idle);
    assert!(!app.inhibit_sleep);
    assert!(app.notify_on_toggle);
    assert!(matches!(app.status, SaveStatus::Idle));
}

#[test]
fn saving_unedited_stores_the_same_config() {
    for cfg in [sample(), CaffeineConfig::default(), CaffeineConfig { default_minutes: 123456, ..sample() }] {
        let mut app = App::init(&cfg, true);
        assert_eq!(app.update(Message::Save), Some(SaveRequest { config: cfg, autostart: true }));
    }
}

#[test]
fn minutes_field_takes_up_to_four_digits() {
    let mut app = App::init(&sample(), false);
    assert_eq!(app.update(Message::DefaultMinutesText("120".to_string())), None);
    assert_eq!(app.default_minutes_text, "120");
    app.update(Message::DefaultMinutesText("12345".to_string()));
    assert_eq!(app.default_minutes_text, "120");
    app.update(Message::DefaultMinutesText("12a".to_string()));
    assert_eq!(app.default_minutes_text, "120");
    app.update(Message::DefaultMinutesText("-1".to_string()));
    assert_eq!(app.default_minutes_text, "120");
    app.update(Message::DefaultMinutesText("9999".to_string()));
    assert_eq!(app.default_minutes_text, "9999");
    app.update(Message::DefaultMinutesText(String::new()));
    assert_eq!(app.default_minutes_text, "");
}

#[test]
fn empty_minutes_save_as_zero() {
    let mut app = App::init(&sample(), false);
    app.update(Message::DefaultMinutesText(String::new()));
    assert_eq!(app.build_config(), CaffeineConfig { default_minutes: 0, ..sample() });
}

#[test]
fn leading_zeros_save_as_the_number() {
    let mut app = App::init(&sample(), false);
    app.update(Message::DefaultMinutesText("0007".to_string()));
    assert_eq!(app.build_config().default_minutes, 7);
    assert_eq!(app.build_config().default_minutes, "0007".parse::<u32>().unwrap());
}

#[test]
fn flags_follow_the_toggles() {
    let mut app = App::init(&sample(), false);
    app.update(Message::InhibitIdle(false));
    app.update(Message::InhibitSleep(true));
    app.update(Message::NotifyOnToggle(false));
    assert_eq!(
        app.update(Message::Save),
        Some(SaveRequest {
            config: CaffeineConfig { default_minutes: 45, inhibit_idle: false, inhibit_sleep: true, notify_on_toggle: false },
            autostart: false,
        })
    );
    assert!(matches!(app.status, SaveStatus::Idle));
}

#[test]
fn save_outcome_sets_the_status() {
    let mut app = App::init(&sample(), false);
    app.update(Message::SaveResult(Ok(())));
    assert!(matches!(app.status, SaveStatus::Saved));
    app.update(Message::SaveResult(Err("no config directory".to_string())));
    match &app.status {
        SaveStatus::Error(e) => assert_eq!(e, "no config directory"),
        other => panic!("unexpected {:?}", other),
    }
}

#[test]
fn unedited_save_keeps_the_stored_config() {
    let cfg = sample();
    let mut app = App::init(&cfg, false);
    let to_store = app.update(Message::Save).unwrap();
    assert_eq!(load(&save(&to_store.config)), cfg);
}

#[test]
fn autostart_follows_its_toggle() {
    let mut app = App::init(&sample(), false);
    assert!(!app.autostart);
    assert_eq!(app.update(Message::Autostart(true)), None);
    assert!(app.autostart);
    assert_eq!(app.update(Message::Save).map(|r| r.autostart), Some(true));
    app.update(Message::Autostart(false));
    assert_eq!(app.update(Message::Save).map(|r| r.autostart), Some(false));
}
