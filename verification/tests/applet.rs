use cosmic_caffeine::applet::{acquire_reason, Action, App, Heading, Message, Notice, Toggle, ICON_OFF, ICON_ON};
use cosmic_caffeine::inhibit::InhibitRequest;
use cosmic_caffeine::config::CaffeineConfig;

fn cfg(notify: bool) -> CaffeineConfig {
    CaffeineConfig { default_minutes: 30, inhibit_idle: true, inhibit_sleep: false, notify_on_toggle: notify }
}

fn on_for(app: &mut App, minutes: u32, c: &CaffeineConfig) -> Vec<Action> {
    app.update(Message::AcquireResult(Ok(minutes)), c)
}

#[test]
fn starts_off() {
    let app = App::new();
    assert_eq!(app, App { active: false, active_minutes: 0, timer_generation: 0 });
    assert!(!app.is_active());
    assert_eq!(app.view(), ICON_OFF);
}

#[test]
fn reason_texts() {
    assert_eq!(acquire_reason(0), "User enabled cosmic-caffeine indefinitely");
    assert_eq!(acquire_reason(5), "User enabled cosmic-caffeine for 5 minutes");
    assert_eq!(acquire_reason(60), "User enabled cosmic-caffeine for 60 minutes");
}

#[test]
fn acquire_asks_for_the_configured_classes() {
    let mut app = App::new();
    let actions = app.update(Message::Acquire(5), &cfg(false));
    assert_eq!(app, App::new());
    assert_eq!(actions.len(), 1);
    match &actions[0] {
        Action::Acquire { idle, sleep, why, minutes } => {
            assert!(*idle);
            assert!(!*sleep);
            assert_eq!(why, "User enabled cosmic-caffeine for 5 minutes");
            assert_eq!(*minutes, 5);
        }
        other => panic!("unexpected {:?}", other),
    }
}

#[test]
fn successful_acquire_turns_on_and_starts_the_timer() {
    let mut app = App::new();
    let actions = on_for(&mut app, 5, &cfg(false));
    assert_eq!(app, App { active: true, active_minutes: 5, timer_generation: 1 });
    assert_eq!(app.view(), ICON_ON);
    assert_eq!(actions.len(), 1);
    assert!(matches!(actions[0], Action::StartTimer { generation: 1, seconds: 300 }));
}

#[test]
fn indefinite_acquire_starts_no_timer() {
    let mut app = App::new();
    let actions = on_for(&mut app, 0, &cfg(false));
    assert_eq!(app, App { active: true, active_minutes: 0, timer_generation: 1 });
    assert!(actions.is_empty());
}

#[test]
fn notifications_when_configured() {
    let mut app = App::new();
    let actions = on_for(&mut app, 30, &cfg(true));
    assert_eq!(actions.len(), 2);
    assert!(matches!(actions[0], Action::Notify(Notice::OnFor(30))));
    assert!(matches!(actions[1], Action::StartTimer { generation: 1, seconds: 1800 }));
    let actions = app.update(Message::Release, &cfg(true));
    assert_eq!(actions.len(), 2);
    assert!(matches!(actions[0], Action::DropInhibitor));
    assert!(matches!(actions[1], Action::Notify(Notice::Off)));
    let mut app = App::new();
    let actions = on_for(&mut app, 0, &cfg(true));
    assert!(matches!(actions[..], [Action::Notify(Notice::OnIndefinite)]));
}

#[test]
fn no_off_notification_when_already_off() {
    let mut app = App::new();
    let actions = app.update(Message::Release, &cfg(true));
    assert!(matches!(actions[..], [Action::DropInhibitor]));
    assert_eq!(app.timer_generation, 1);
}

#[test]
fn failed_acquire_clears_the_state() {
    let mut app = App { active: true, active_minutes: 5, timer_generation: 3 };
    let actions = app.update(Message::AcquireResult(Err("system bus: down".to_string())), &cfg(true));
    assert!(matches!(actions[..], [Action::DropInhibitor]));
    assert_eq!(app, App { active: false, active_minutes: 0, timer_generation: 3 });
    let actions = app.update(Message::AcquireResult(Err("Inhibit: denied".to_string())), &cfg(true));
    assert!(actions.is_empty());
    assert_eq!(app, App { active: false, active_minutes: 0, timer_generation: 3 });
}

#[test]
fn double_click_with_failing_second_acquire_ends_off() {
    let mut app = App::new();
    let c = cfg(false);
    app.update(Message::Acquire(5), &c);
    app.update(Message::Acquire(0), &c);
    on_for(&mut app, 5, &c);
    let actions = app.update(Message::AcquireResult(Err("Inhibit: busy".to_string())), &c);
    assert!(matches!(actions[..], [Action::DropInhibitor]));
    assert!(!app.is_active());
    assert_eq!(app.view(), ICON_OFF);
}

#[test]
fn timer_of_the_current_generation_turns_off() {
    let mut app = App::new();
    on_for(&mut app, 5, &cfg(true));
    let actions = app.update(Message::TimerExpired(1), &cfg(true));
    assert_eq!(app, App { active: false, active_minutes: 0, timer_generation: 1 });
    assert!(matches!(actions[..], [Action::DropInhibitor, Action::Notify(Notice::Off)]));
}

#[test]
fn stale_timer_is_ignored() {
    let mut app = App::new();
    on_for(&mut app, 5, &cfg(true));
    let before = app;
    let actions = app.update(Message::TimerExpired(0), &cfg(true));
    assert!(actions.is_empty());
    assert_eq!(app, before);
}

#[test]
fn release_cancels_the_pending_timer() {
    let mut app = App::new();
    on_for(&mut app, 5, &cfg(false));
    app.update(Message::Release, &cfg(false));
    assert_eq!(app, App { active: false, active_minutes: 0, timer_generation: 2 });
    let actions = app.update(Message::TimerExpired(1), &cfg(false));
    assert!(actions.is_empty());
    assert_eq!(app.timer_generation, 2);
}

#[test]
fn new_acquisition_supersedes_the_old_timer() {
    let mut app = App::new();
    on_for(&mut app, 5, &cfg(false));
    let actions = on_for(&mut app, 60, &cfg(false));
    assert!(matches!(actions[..], [Action::StartTimer { generation: 2, seconds: 3600 }]));
    assert!(app.update(Message::TimerExpired(1), &cfg(false)).is_empty());
    assert!(app.is_active());
    assert_eq!(app.active_minutes, 60);
}

#[test]
fn generation_wraps_around() {
    let mut app = App { active: false, active_minutes: 0, timer_generation: usize::MAX };
    let actions = on_for(&mut app, 1, &cfg(false));
    assert_eq!(app.timer_generation, 0);
    assert!(matches!(actions[..], [Action::StartTimer { generation: 0, seconds: 60 }]));
}

#[test]
fn longest_timer_fits() {
    let mut app = App::new();
    let actions = on_for(&mut app, u32::MAX, &cfg(false));
    assert!(matches!(actions[..], [Action::StartTimer { generation: 1, seconds: 257698037700 }]));
}

#[test]
fn popup_while_off_offers_shortcuts() {
    let v = App::new().view_window(30);
    assert_eq!(v.heading, Heading::Off);
    assert_eq!(v.toggle, Toggle::TurnOn(30));
    assert_eq!(v.shortcuts, vec![5, 30, 60, 0]);
}

#[test]
fn popup_while_on() {
    let v = App { active: true, active_minutes: 0, timer_generation: 1 }.view_window(30);
    assert_eq!(v.heading, Heading::OnIndefinite);
    assert_eq!(v.toggle, Toggle::TurnOff);
    assert!(v.shortcuts.is_empty());
    let v = App { active: true, active_minutes: 5, timer_generation: 1 }.view_window(30);
    assert_eq!(v.heading, Heading::OnFor(5));
}

#[test]
fn default_click_inhibits_idle_and_sleep_in_block_mode() {
    let mut app = App::new();
    let defaults = CaffeineConfig::default();
    let v = app.view_window(defaults.default_minutes);
    let minutes = match v.toggle {
        Toggle::TurnOn(m) => m,
        Toggle::TurnOff => panic!("should be off"),
    };
    assert_eq!(minutes, 0);
    let actions = app.update(Message::Acquire(minutes), &defaults);
    match &actions[0] {
        Action::Acquire { idle, sleep, why, .. } => {
            let request = InhibitRequest::new(*idle, *sleep, why);
            assert_eq!(request.what, "idle:sleep");
            assert_eq!(request.mode, "block");
            assert!(request.screensaver);
        }
        other => panic!("unexpected {:?}", other),
    }
}

#[test]
fn click_again_drops_the_lock() {
    let mut app = App::new();
    let c = cfg(false);
    on_for(&mut app, 0, &c);
    assert_eq!(app.view_window(30).toggle, Toggle::TurnOff);
    let actions = app.update(Message::Release, &c);
    assert!(matches!(actions[..], [Action::DropInhibitor]));
    assert!(!app.is_active());
    assert_eq!(app.view(), ICON_OFF);
}
