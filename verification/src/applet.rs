//! The panel applet's decisions.
//!
//! The applet holds an inhibition while caffeine is on. A click turns it on
//! for a number of minutes (0 = until turned off) or off again; a timer
//! turns it off when the minutes are up. Every acquisition and every
//! release moves the timer generation on, so a timer that was started for
//! an earlier acquisition fires into a no-op.
//!
//! [`App::update`] maps the current state and a [`Message`] to the next
//! state and the [`Action`]s that the GUI then performs: acquiring the
//! D-Bus locks, dropping them, showing a notification, starting a timer.

use vstd::prelude::*;
use vstd::string::*;
use crate::config::CaffeineConfig;
use crate::decimal::{decimal, push_decimal};

verus! {

/// Panel icon while caffeine is off.
pub const ICON_OFF: &'static str = "cosmic-caffeine-symbolic";

/// Panel icon while caffeine is on.
pub const ICON_ON: &'static str = "cosmic-caffeine-active-symbolic";

/// The applet's state.
#[derive(Clone, Copy, Debug, PartialEq, Eq, Structural)]
pub struct App {
    /// Whether the inhibition is held.
    pub active: bool,
    /// Minutes the user asked for in the current session; 0 = indefinite.
    pub active_minutes: u32,
    /// Moved on by every acquisition and every release, so that a timer
    /// from an earlier generation no longer turns caffeine off.
    pub timer_generation: usize,
}

/// What happens to the applet.
#[derive(Debug)]
pub enum Message {
    /// Acquire the inhibition for `minutes` (0 = indefinite).
    Acquire(u32),
    /// The outcome of an acquisition: the minutes it was for, or an error.
    /// Success turns caffeine on; an error clears the state to off.
    AcquireResult(Result<u32, String>),
    /// Drop the inhibition now.
    Release,
    /// The timer of this generation ran out.
    TimerExpired(usize),
}

/// A toggle notification.
#[derive(Clone, Copy, Debug, PartialEq, Eq, Structural)]
pub enum Notice {
    /// Caffeine is on until turned off.
    OnIndefinite,
    /// Caffeine is on for this many minutes.
    OnFor(u32),
    /// Caffeine is off.
    Off,
}

/// Work for the GUI to perform.
#[derive(Debug)]
pub enum Action {
    /// Acquire the inhibition (see [`crate::inhibit::InhibitRequest`]) and
    /// answer with [`Message::AcquireResult`] carrying `minutes` or the error.
    Acquire { idle: bool, sleep: bool, why: String, minutes: u32 },
    /// Drop the held inhibition, if any, releasing its locks.
    DropInhibitor,
    /// Show a desktop notification.
    Notify(Notice),
    /// After `seconds`, send [`Message::TimerExpired`] with `generation`.
    StartTimer { generation: usize, seconds: u64 },
}

/// An [`Action`] as a mathematical value.
pub enum ActionView {
    Acquire { idle: bool, sleep: bool, why: Seq<char>, minutes: u32 },
    DropInhibitor,
    Notify(Notice),
    StartTimer { generation: usize, seconds: u64 },
}

impl View for Action {
    type V = ActionView;

    open spec fn view(&self) -> ActionView {
        match self {
            Action::Acquire { idle, sleep, why, minutes } => ActionView::Acquire {
                idle: *idle,
                sleep: *sleep,
                why: why@,
                minutes: *minutes,
            },
            Action::DropInhibitor => ActionView::DropInhibitor,
            Action::Notify(n) => ActionView::Notify(*n),
            Action::StartTimer { generation, seconds } => ActionView::StartTimer {
                generation: *generation,
                seconds: *seconds,
            },
        }
    }
}

/// The views of a list of actions.
pub open spec fn actions_view(actions: Seq<Action>) -> Seq<ActionView> {
    actions.map_values(|a: Action| a@)
}

/// The generation after `g` (the counter wraps around).
pub open spec fn next_generation(g: usize) -> usize {
    if g == usize::MAX {
        0
    } else {
        (g + 1) as usize
    }
}

/// The reason given to logind for an acquisition of `minutes`.
pub open spec fn reason_text(minutes: u32) -> Seq<char> {
    if minutes == 0 {
        "User enabled cosmic-caffeine indefinitely"@
    } else {
        "User enabled cosmic-caffeine for "@ + decimal(minutes as nat) + " minutes"@
    }
}

/// The notification for turning caffeine on for `minutes`.
pub open spec fn on_notice(minutes: u32) -> Notice {
    if minutes == 0 {
        Notice::OnIndefinite
    } else {
        Notice::OnFor(minutes)
    }
}

/// The "off" notification, when caffeine was on and notifications are wanted.
pub open spec fn off_notice(was_active: bool, cfg: CaffeineConfig) -> Seq<ActionView> {
    if was_active && cfg.notify_on_toggle {
        seq![ActionView::Notify(Notice::Off)]
    } else {
        Seq::empty()
    }
}

/// One step of the applet: the next state and the actions for `msg`, with
/// `cfg` the configuration as stored when the message is handled.
pub open spec fn step(s: App, msg: Message, cfg: CaffeineConfig) -> (App, Seq<ActionView>) {
    match msg {
        Message::Acquire(minutes) => (
            s,
            seq![
                ActionView::Acquire {
                    idle: cfg.inhibit_idle,
                    sleep: cfg.inhibit_sleep,
                    why: reason_text(minutes),
                    minutes,
                },
            ],
        ),
        Message::AcquireResult(Ok(minutes)) => {
            let g = next_generation(s.timer_generation);
            let notify = if cfg.notify_on_toggle {
                seq![ActionView::Notify(on_notice(minutes))]
            } else {
                Seq::empty()
            };
            let timer = if minutes > 0 {
                seq![ActionView::StartTimer { generation: g, seconds: (minutes * 60) as u64 }]
            } else {
                Seq::empty()
            };
            (App { active: true, active_minutes: minutes, timer_generation: g }, notify + timer)
        },
        Message::AcquireResult(Err(_)) => (
            App { active: false, active_minutes: 0, ..s },
            if s.active {
                seq![ActionView::DropInhibitor]
            } else {
                Seq::empty()
            },
        ),
        Message::Release => (
            App {
                active: false,
                active_minutes: 0,
                timer_generation: next_generation(s.timer_generation),
            },
            seq![ActionView::DropInhibitor] + off_notice(s.active, cfg),
        ),
        Message::TimerExpired(g) => {
            if g == s.timer_generation {
                (
                    App { active: false, active_minutes: 0, ..s },
                    seq![ActionView::DropInhibitor] + off_notice(s.active, cfg),
                )
            } else {
                (s, Seq::empty())
            }
        },
    }
}

/// The reason given to logind for an acquisition of `minutes`.
pub fn acquire_reason(minutes: u32) -> (why: String)
    ensures
        why@ == reason_text(minutes),
{
    if minutes == 0 {
        String::from_str("User enabled cosmic-caffeine indefinitely")
    } else {
        let mut why = String::from_str("User enabled cosmic-caffeine for ");
        push_decimal(&mut why, minutes);
        why.append(" minutes");
        why
    }
}

/// The heading of the popup.
#[derive(Clone, Copy, Debug, PartialEq, Eq, Structural)]
pub enum Heading {
    /// On until turned off.
    OnIndefinite,
    /// On for this many minutes.
    OnFor(u32),
    /// Off.
    Off,
}

/// The main button of the popup.
#[derive(Clone, Copy, Debug, PartialEq, Eq, Structural)]
pub enum Toggle {
    /// "Turn off": sends [`Message::Release`].
    TurnOff,
    /// "Turn on": sends [`Message::Acquire`] with these minutes.
    TurnOn(u32),
}

/// What the popup shows.
pub struct PopupView {
    pub heading: Heading,
    pub toggle: Toggle,
    /// Minutes of the "on for" shortcut buttons, 0 being "on indefinitely";
    /// shown only while caffeine is off.
    pub shortcuts: Vec<u32>,
}

impl App {
    /// The state at start: off, generation 0.
    pub fn new() -> (app: App)
        ensures
            app == (App { active: false, active_minutes: 0, timer_generation: 0 }),
    {
        App { active: false, active_minutes: 0, timer_generation: 0 }
    }

    /// Whether the inhibition is held.
    pub fn is_active(&self) -> (b: bool)
        ensures
            b == self.active,
    {
        self.active
    }

    /// Handles `message`; `cfg` is the stored configuration at this moment.
    /// Returns the actions to perform, in order.
    pub fn update(&mut self, message: Message, cfg: &CaffeineConfig) -> (actions: Vec<Action>)
        ensures
            *final(self) == step(*old(self), message, *cfg).0,
            actions_view(actions@) == step(*old(self), message, *cfg).1,
            actions@.len() == step(*old(self), message, *cfg).1.len(),
            forall|i: int|
                0 <= i < actions@.len() ==> #[trigger] actions@[i]@ == step(
                    *old(self),
                    message,
                    *cfg,
                ).1[i],
            // An acquisition asks for exactly the requested minutes and the
            // configured classes, and changes nothing yet.
            message matches Message::Acquire(m) ==> {
                &&& *final(self) == *old(self)
                &&& actions@.len() == 1
                &&& actions@[0] matches Action::Acquire { idle, sleep, why, minutes } && {
                    &&& idle == cfg.inhibit_idle
                    &&& sleep == cfg.inhibit_sleep
                    &&& minutes == m
                    &&& why@ == reason_text(m)
                }
            },
            // A successful acquisition turns caffeine on for its minutes
            // and, when there are some, times exactly that many minutes.
            message matches Message::AcquireResult(Ok(m)) ==> {
                &&& final(self).active
                &&& final(self).active_minutes == m
                &&& final(self).timer_generation != old(self).timer_generation
                &&& (m > 0 ==> (actions@.last() matches Action::StartTimer { generation, seconds } && {
                    &&& generation == final(self).timer_generation
                    &&& seconds == m as u64 * 60
                }))
                &&& (m == 0 ==> forall|i: int|
                    0 <= i < actions@.len() ==> !(#[trigger] actions@[i] is StartTimer))
                &&& (cfg.notify_on_toggle <==> (actions@.len() > 0 && actions@[0] is Notify))
                &&& (cfg.notify_on_toggle && m == 0 ==> actions@[0] matches Action::Notify(
                    Notice::OnIndefinite,
                ))
                &&& (cfg.notify_on_toggle && m > 0 ==> (actions@[0] matches Action::Notify(n)
                    && n == Notice::OnFor(m)))
            },
            // Release and an expired current timer turn caffeine off and drop
            // the inhibition; "off" is notified only when caffeine was on
            // and notifications are wanted.
            (message is Release || (message matches Message::TimerExpired(g) && g
                == old(self).timer_generation)) ==> {
                &&& !final(self).active
                &&& final(self).active_minutes == 0
                &&& actions@.len() >= 1
                &&& actions@[0] is DropInhibitor
                &&& (actions@.len() == 2 <==> (old(self).active && cfg.notify_on_toggle))
                &&& (actions@.len() == 2 ==> actions@[1] matches Action::Notify(Notice::Off))
                &&& actions@.len() <= 2
            },
            // A failed acquisition clears the state and drops any held lock.
            message matches Message::AcquireResult(Err(_)) ==> {
                &&& !final(self).active
                &&& final(self).active_minutes == 0
                &&& final(self).timer_generation == old(self).timer_generation
                &&& actions@.len() == (if old(self).active {
                    1int
                } else {
                    0int
                })
                &&& (old(self).active ==> actions@[0] is DropInhibitor)
            },
            // Acquisitions and releases move the generation on by one
            // (wrapping around at the top).
            (message is Release || message matches Message::AcquireResult(Ok(_)))
                ==> final(self).timer_generation == (if old(self).timer_generation == usize::MAX {
                0
            } else {
                (old(self).timer_generation + 1) as usize
            }),
            // A timer of another generation does nothing.
            (message matches Message::TimerExpired(g) && g != old(self).timer_generation) ==> {
                &&& *final(self) == *old(self)
                &&& actions@.len() == 0
            },
    {
        let ghost old_self = *self;
        let mut actions: Vec<Action> = Vec::new();
        match message {
            Message::Acquire(minutes) => {
                let why = acquire_reason(minutes);
                actions.push(
                    Action::Acquire {
                        idle: cfg.inhibit_idle,
                        sleep: cfg.inhibit_sleep,
                        why,
                        minutes,
                    },
                );
            },
            Message::AcquireResult(Ok(minutes)) => {
                self.active = true;
                self.active_minutes = minutes;
                if cfg.notify_on_toggle {
                    let notice = if minutes == 0 {
                        Notice::OnIndefinite
                    } else {
                        Notice::OnFor(minutes)
                    };
                    actions.push(Action::Notify(notice));
                }
                let generation = self.bump_generation();
                if minutes > 0 {
                    let seconds: u64 = (minutes as u64) * 60;
                    actions.push(Action::StartTimer { generation, seconds });
                }
            },
            Message::AcquireResult(Err(_)) => {
                if self.active {
                    actions.push(Action::DropInhibitor);
                }
                self.active = false;
                self.active_minutes = 0;
            },
            Message::Release => {
                let was_active = self.active;
                actions.push(Action::DropInhibitor);
                self.active = false;
                self.active_minutes = 0;
                self.bump_generation();
                if was_active && cfg.notify_on_toggle {
                    actions.push(Action::Notify(Notice::Off));
                }
            },
            Message::TimerExpired(generation) => {
                if generation == self.timer_generation {
                    let was_active = self.active;
                    actions.push(Action::DropInhibitor);
                    self.active = false;
                    self.active_minutes = 0;
                    if was_active && cfg.notify_on_toggle {
                        actions.push(Action::Notify(Notice::Off));
                    }
                }
            },
        }
        assert(actions_view(actions@) =~= step(old_self, message, *cfg).1);
        actions
    }

    /// Moves the timer generation on and returns the new one.
    fn bump_generation(&mut self) -> (g: usize)
        ensures
            g == next_generation(old(self).timer_generation),
            *final(self) == (App { timer_generation: g, ..*old(self) }),
    {
        if self.timer_generation == usize::MAX {
            self.timer_generation = 0;
        } else {
            self.timer_generation = self.timer_generation + 1;
        }
        self.timer_generation
    }

    /// The panel icon: [`ICON_ON`] while the inhibition is held, else
    /// [`ICON_OFF`].
    pub fn view(&self) -> (icon: &'static str)
        ensures
            icon@ == (if self.active {
                ICON_ON@
            } else {
                ICON_OFF@
            }),
    {
        if self.active {
            ICON_ON
        } else {
            ICON_OFF
        }
    }

    /// The popup: while on, a heading with the minutes and a "turn off"
    /// button; while off, an "off" heading, a "turn on" button for
    /// `default_minutes` and the 5, 30 and 60 minute and indefinite shortcuts.
    pub fn view_window(&self, default_minutes: u32) -> (v: PopupView)
        ensures
            v.heading == (if !self.active {
                Heading::Off
            } else if self.active_minutes == 0 {
                Heading::OnIndefinite
            } else {
                Heading::OnFor(self.active_minutes)
            }),
            v.toggle == (if self.active {
                Toggle::TurnOff
            } else {
                Toggle::TurnOn(default_minutes)
            }),
            v.shortcuts@ == (if self.active {
                Seq::<u32>::empty()
            } else {
                seq![5u32, 30u32, 60u32, 0u32]
            }),
    {
        if self.active {
            let heading = if self.active_minutes == 0 {
                Heading::OnIndefinite
            } else {
                Heading::OnFor(self.active_minutes)
            };
            PopupView { heading, toggle: Toggle::TurnOff, shortcuts: Vec::new() }
        } else {
            let mut shortcuts: Vec<u32> = Vec::new();
            shortcuts.push(5);
            shortcuts.push(30);
            shortcuts.push(60);
            shortcuts.push(0);
            assert(shortcuts@ =~= seq![5u32, 30u32, 60u32, 0u32]);
            PopupView { heading: Heading::Off, toggle: Toggle::TurnOn(default_minutes), shortcuts }
        }
    }
}

/// Law: asking for an acquisition requests exactly the asked minutes and
/// the configured classes, with the reason naming those minutes, and
/// changes nothing until the outcome arrives.
pub proof fn lemma_acquire_requests_as_asked(s: App, minutes: u32, cfg: CaffeineConfig)
    ensures
        ({
            let (s1, a1) = step(s, Message::Acquire(minutes), cfg);
            &&& s1 == s
            &&& a1.len() == 1
            &&& a1[0] is Acquire
            &&& a1[0]->minutes == minutes
            &&& a1[0]->idle == cfg.inhibit_idle
            &&& a1[0]->sleep == cfg.inhibit_sleep
            &&& a1[0]->why == (if minutes == 0 {
                "User enabled cosmic-caffeine indefinitely"@
            } else {
                "User enabled cosmic-caffeine for "@ + decimal(minutes as nat) + " minutes"@
            })
        }),
{
}

/// Law: a session lasts what was asked for: asking for `minutes > 0`, then
/// acquiring for the minutes of that request, turns caffeine on for those
/// minutes with a timer of exactly `minutes * 60` seconds for the new
/// generation; for `minutes == 0` no timer is started.
pub proof fn lemma_requested_duration_is_timed(s: App, minutes: u32, cfg: CaffeineConfig)
    ensures
        ({
            let request = step(s, Message::Acquire(minutes), cfg).1[0];
            let (s2, a2) = step(s, Message::AcquireResult(Ok(request->minutes)), cfg);
            &&& s2.active
            &&& s2.active_minutes == minutes
            &&& (minutes > 0 ==> a2.last() == ActionView::StartTimer {
                generation: s2.timer_generation,
                seconds: (minutes * 60) as u64,
            })
            &&& (minutes == 0 ==> forall|i: int| 0 <= i < a2.len() ==> !(#[trigger] a2[i] is StartTimer))
        }),
{
}

/// Law: a timer of another generation than the current one changes
/// nothing and asks for nothing.
pub proof fn lemma_stale_timer_is_ignored(s: App, generation: usize, cfg: CaffeineConfig)
    requires
        generation != s.timer_generation,
    ensures
        step(s, Message::TimerExpired(generation), cfg).0 == s,
        step(s, Message::TimerExpired(generation), cfg).1 == Seq::<ActionView>::empty(),
{
}

/// Law: a successful acquisition of `minutes > 0` starts exactly one timer,
/// of `minutes * 60` seconds, for the new generation; when that timer runs
/// out with nothing in between, caffeine is off and the inhibition dropped.
pub proof fn lemma_timer_turns_off(s: App, minutes: u32, cfg: CaffeineConfig)
    requires
        minutes > 0,
    ensures
        ({
            let (s1, a1) = step(s, Message::AcquireResult(Ok(minutes)), cfg);
            let (s2, a2) = step(s1, Message::TimerExpired(s1.timer_generation), cfg);
            &&& s1.active
            &&& s1.active_minutes == minutes
            &&& a1.last() == (ActionView::StartTimer {
                generation: s1.timer_generation,
                seconds: (minutes * 60) as u64,
            })
            &&& !s2.active
            &&& s2.active_minutes == 0
            &&& a2[0] == ActionView::DropInhibitor
        }),
{
}

/// Law: releasing cancels the pending timer: after an acquisition and a
/// release, the acquisition's timer no longer does anything.
pub proof fn lemma_release_cancels_timer(s: App, minutes: u32, cfg: CaffeineConfig)
    ensures
        ({
            let s1 = step(s, Message::AcquireResult(Ok(minutes)), cfg).0;
            let s2 = step(s1, Message::Release, cfg).0;
            &&& step(s2, Message::TimerExpired(s1.timer_generation), cfg).0 == s2
            &&& step(s2, Message::TimerExpired(s1.timer_generation), cfg).1 == Seq::<
                ActionView,
            >::empty()
        }),
{
}

/// Law: a newer acquisition supersedes the timer of an earlier one.
pub proof fn lemma_reacquire_supersedes_timer(s: App, first: u32, second: u32, cfg: CaffeineConfig)
    ensures
        ({
            let s1 = step(s, Message::AcquireResult(Ok(first)), cfg).0;
            let s2 = step(s1, Message::AcquireResult(Ok(second)), cfg).0;
            &&& step(s2, Message::TimerExpired(s1.timer_generation), cfg).0 == s2
            &&& step(s2, Message::TimerExpired(s1.timer_generation), cfg).1 == Seq::<
                ActionView,
            >::empty()
        }),
{
}

/// Law: a failed acquisition clears the state: caffeine ends off with no
/// minutes, any held inhibition is dropped, and nothing is notified.
pub proof fn lemma_failed_acquire_clears(s: App, e: String, cfg: CaffeineConfig)
    ensures
        ({
            let (s1, a1) = step(s, Message::AcquireResult(Err(e)), cfg);
            &&& !s1.active
            &&& s1.active_minutes == 0
            &&& s1.timer_generation == s.timer_generation
            &&& a1 == (if s.active {
                seq![ActionView::DropInhibitor]
            } else {
                Seq::<ActionView>::empty()
            })
        }),
{
}

/// Law: releasing always leaves caffeine off, with the inhibition dropped,
/// and notifies only when caffeine was on and notifications are wanted.
pub proof fn lemma_release_turns_off(s: App, cfg: CaffeineConfig)
    ensures
        ({
            let (s1, a1) = step(s, Message::Release, cfg);
            &&& !s1.active
            &&& s1.active_minutes == 0
            &&& a1[0] == ActionView::DropInhibitor
            &&& a1.len() == (if s.active && cfg.notify_on_toggle {
                2int
            } else {
                1int
            })
        }),
{
}

/// Law: without `notify_on_toggle` no message ever leads to a notification.
pub proof fn lemma_quiet_without_notify(s: App, msg: Message, cfg: CaffeineConfig)
    requires
        !cfg.notify_on_toggle,
    ensures
        forall|i: int|
            0 <= i < step(s, msg, cfg).1.len() ==> !(#[trigger] step(s, msg, cfg).1[i] is Notify),
{
}

} // verus!
