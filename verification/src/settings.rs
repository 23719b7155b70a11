//! The settings window's decisions.
//!
//! The window edits a copy of the stored configuration: the default
//! duration as text (digits only, at most four of them), and three flags;
//! and whether the applet starts on login. Saving turns the edited values
//! back into a [`CaffeineConfig`], which the GUI stores together with the
//! autostart entry (see [`crate::autostart`]); the outcome comes back as
//! [`Message::SaveResult`].

use vstd::prelude::*;
use crate::config::{config_from, entries_of, lemma_load_after_save, CaffeineConfig};
use crate::decimal::{
    all_digits,
    decimal,
    digits_value,
    is_digit,
    lemma_parse_decimal,
    parse_u32,
    parse_u32_spec,
    to_decimal,
};
use vstd::string::*;

verus! {

/// Outcome of the last save.
#[derive(Debug)]
pub enum SaveStatus {
    Idle,
    Saving,
    Saved,
    Error(String),
}

/// [`SaveStatus`] as a mathematical value.
pub enum SaveStatusView {
    Idle,
    Saving,
    Saved,
    Error(Seq<char>),
}

impl View for SaveStatus {
    type V = SaveStatusView;

    open spec fn view(&self) -> SaveStatusView {
        match self {
            SaveStatus::Idle => SaveStatusView::Idle,
            SaveStatus::Saving => SaveStatusView::Saving,
            SaveStatus::Saved => SaveStatusView::Saved,
            SaveStatus::Error(e) => SaveStatusView::Error(e@),
        }
    }
}

/// What happens in the settings window.
#[derive(Debug)]
pub enum Message {
    /// The default-minutes field was edited to this text.
    DefaultMinutesText(String),
    InhibitIdle(bool),
    InhibitSleep(bool),
    NotifyOnToggle(bool),
    /// Whether the applet starts on login.
    Autostart(bool),
    /// The user asked to save.
    Save,
    /// The outcome of storing the configuration: the error's text on failure.
    SaveResult(Result<(), String>),
}

/// The settings window's state.
pub struct App {
    pub default_minutes_text: String,
    pub inhibit_idle: bool,
    pub inhibit_sleep: bool,
    pub notify_on_toggle: bool,
    pub autostart: bool,
    pub status: SaveStatus,
}

/// [`App`] as a mathematical value.
pub struct AppView {
    pub default_minutes_text: Seq<char>,
    pub inhibit_idle: bool,
    pub inhibit_sleep: bool,
    pub notify_on_toggle: bool,
    pub autostart: bool,
    pub status: SaveStatusView,
}

/// What a save stores: the configuration, and whether the autostart entry
/// is to exist.
#[derive(Clone, Copy, Debug, PartialEq, Eq, Structural)]
pub struct SaveRequest {
    pub config: CaffeineConfig,
    pub autostart: bool,
}

impl View for App {
    type V = AppView;

    open spec fn view(&self) -> AppView {
        AppView {
            default_minutes_text: self.default_minutes_text@,
            inhibit_idle: self.inhibit_idle,
            inhibit_sleep: self.inhibit_sleep,
            notify_on_toggle: self.notify_on_toggle,
            autostart: self.autostart,
            status: self.status@,
        }
    }
}

/// Whether the minutes field takes this text: only ASCII digits, at most
/// four of them.
pub open spec fn accepts_minutes_text(s: Seq<char>) -> bool {
    all_digits(s) && s.len() <= 4
}

/// The window opened on `cfg`, with the autostart entry present or not.
pub open spec fn initial(cfg: CaffeineConfig, autostart: bool) -> AppView {
    AppView {
        default_minutes_text: decimal(cfg.default_minutes as nat),
        inhibit_idle: cfg.inhibit_idle,
        inhibit_sleep: cfg.inhibit_sleep,
        notify_on_toggle: cfg.notify_on_toggle,
        autostart,
        status: SaveStatusView::Idle,
    }
}

/// The configuration that the window's values give: the minutes text
/// parsed as a `u32`, 0 where it does not parse.
pub open spec fn config_of(v: AppView) -> CaffeineConfig {
    CaffeineConfig {
        default_minutes: match parse_u32_spec(v.default_minutes_text) {
            Some(n) => n,
            None => 0,
        },
        inhibit_idle: v.inhibit_idle,
        inhibit_sleep: v.inhibit_sleep,
        notify_on_toggle: v.notify_on_toggle,
    }
}

/// One step of the window: the next state for `msg`, and what to store,
/// if the message asks for it.
pub open spec fn step(v: AppView, msg: Message) -> (AppView, Option<SaveRequest>) {
    match msg {
        Message::DefaultMinutesText(s) => (
            if accepts_minutes_text(s@) {
                AppView { default_minutes_text: s@, ..v }
            } else {
                v
            },
            None,
        ),
        Message::InhibitIdle(b) => (AppView { inhibit_idle: b, ..v }, None),
        Message::InhibitSleep(b) => (AppView { inhibit_sleep: b, ..v }, None),
        Message::NotifyOnToggle(b) => (AppView { notify_on_toggle: b, ..v }, None),
        Message::Autostart(b) => (AppView { autostart: b, ..v }, None),
        Message::Save => (v, Some(SaveRequest { config: config_of(v), autostart: v.autostart })),
        Message::SaveResult(Ok(())) => (AppView { status: SaveStatusView::Saved, ..v }, None),
        Message::SaveResult(Err(e)) => (AppView { status: SaveStatusView::Error(e@), ..v }, None),
    }
}

/// Whether every character of `s` is an ASCII digit and there are at most
/// four of them.
fn minutes_text_ok(s: &str) -> (b: bool)
    ensures
        b == accepts_minutes_text(s@),
{
    let len = s.unicode_len();
    let mut i: usize = 0;
    while i < len
        invariant
            i <= len,
            len == s@.len(),
            forall|j: int| 0 <= j < i ==> is_digit(#[trigger] s@[j]),
        decreases len - i,
    {
        let c = s.get_char(i);
        if !('0' <= c && c <= '9') {
            assert(!is_digit(s@[i as int]));
            return false;
        }
        i = i + 1;
    }
    len <= 4
}

impl App {
    /// The window opened on the stored configuration `cfg`; `autostart`
    /// tells whether the autostart entry exists.
    pub fn init(cfg: &CaffeineConfig, autostart: bool) -> (app: App)
        ensures
            app@ == initial(*cfg, autostart),
            app.inhibit_idle == cfg.inhibit_idle,
            app.inhibit_sleep == cfg.inhibit_sleep,
            app.notify_on_toggle == cfg.notify_on_toggle,
            app.autostart == autostart,
            app.default_minutes_text@ == decimal(cfg.default_minutes as nat),
            app.status is Idle,
    {
        App {
            default_minutes_text: to_decimal(cfg.default_minutes),
            inhibit_idle: cfg.inhibit_idle,
            inhibit_sleep: cfg.inhibit_sleep,
            notify_on_toggle: cfg.notify_on_toggle,
            autostart,
            status: SaveStatus::Idle,
        }
    }

    /// The configuration that the window's values give.
    pub fn build_config(&self) -> (cfg: CaffeineConfig)
        ensures
            cfg == config_of(self@),
            cfg.inhibit_idle == self.inhibit_idle,
            cfg.inhibit_sleep == self.inhibit_sleep,
            cfg.notify_on_toggle == self.notify_on_toggle,
            cfg.default_minutes == (match parse_u32_spec(self.default_minutes_text@) {
                Some(n) => n,
                None => 0u32,
            }),
    {
        let minutes = match parse_u32(self.default_minutes_text.as_str()) {
            Some(n) => n,
            None => 0,
        };
        CaffeineConfig {
            default_minutes: minutes,
            inhibit_idle: self.inhibit_idle,
            inhibit_sleep: self.inhibit_sleep,
            notify_on_toggle: self.notify_on_toggle,
        }
    }

    /// Handles `message`. Returns what to store when the user asked to
    /// save; the outcome is to come back as [`Message::SaveResult`].
    pub fn update(&mut self, message: Message) -> (to_store: Option<SaveRequest>)
        ensures
            final(self)@ == step(old(self)@, message).0,
            to_store == step(old(self)@, message).1,
            // A toggle changes only its own field, and stores nothing.
            message matches Message::InhibitIdle(b) ==> {
                &&& final(self)@ == AppView { inhibit_idle: b, ..old(self)@ }
                &&& to_store is None
            },
            message matches Message::InhibitSleep(b) ==> {
                &&& final(self)@ == AppView { inhibit_sleep: b, ..old(self)@ }
                &&& to_store is None
            },
            message matches Message::NotifyOnToggle(b) ==> {
                &&& final(self)@ == AppView { notify_on_toggle: b, ..old(self)@ }
                &&& to_store is None
            },
            message matches Message::Autostart(b) ==> {
                &&& final(self)@ == AppView { autostart: b, ..old(self)@ }
                &&& to_store is None
            },
            // The minutes text takes what is typed exactly when it is at most
            // four ASCII digits, and nothing else changes.
            message matches Message::DefaultMinutesText(s) ==> {
                &&& to_store is None
                &&& if s@.len() <= 4 && (forall|i: int|
                    0 <= i < s@.len() ==> '0' <= #[trigger] s@[i] && s@[i] <= '9') {
                    final(self)@ == AppView { default_minutes_text: s@, ..old(self)@ }
                } else {
                    final(self)@ == old(self)@
                }
            },
            // The outcome of a save shows in the status, and nothing else changes.
            message matches Message::SaveResult(Ok(_)) ==> {
                &&& to_store is None
                &&& final(self)@ == AppView { status: SaveStatusView::Saved, ..old(self)@ }
            },
            message matches Message::SaveResult(Err(e)) ==> {
                &&& to_store is None
                &&& final(self)@ == AppView { status: SaveStatusView::Error(e@), ..old(self)@ }
            },
            // Saving hands over the window's values as they are and
            // changes nothing.
            message is Save ==> {
                &&& final(self)@ == old(self)@
                &&& to_store is Some
                &&& to_store->0.config.inhibit_idle == old(self).inhibit_idle
                &&& to_store->0.config.inhibit_sleep == old(self).inhibit_sleep
                &&& to_store->0.config.notify_on_toggle == old(self).notify_on_toggle
                &&& to_store->0.autostart == old(self).autostart
                &&& to_store->0.config.default_minutes == (match parse_u32_spec(
                    old(self).default_minutes_text@,
                ) {
                    Some(n) => n,
                    None => 0u32,
                })
            },
    {
        match message {
            Message::DefaultMinutesText(s) => {
                if minutes_text_ok(s.as_str()) {
                    self.default_minutes_text = s;
                }
                None
            },
            Message::InhibitIdle(b) => {
                self.inhibit_idle = b;
                None
            },
            Message::InhibitSleep(b) => {
                self.inhibit_sleep = b;
                None
            },
            Message::NotifyOnToggle(b) => {
                self.notify_on_toggle = b;
                None
            },
            Message::Autostart(b) => {
                self.autostart = b;
                None
            },
            Message::Save => Some(SaveRequest { config: self.build_config(), autostart: self.autostart }),
            Message::SaveResult(Ok(())) => {
                self.status = SaveStatus::Saved;
                None
            },
            Message::SaveResult(Err(e)) => {
                self.status = SaveStatus::Error(e);
                None
            },
        }
    }
}

/// Law: opening the window on a configuration and saving without edits
/// stores that same configuration and leaves autostart as it was.
pub proof fn lemma_save_unedited(cfg: CaffeineConfig, autostart: bool)
    ensures
        step(initial(cfg, autostart), Message::Save).1 == Some(
            SaveRequest { config: cfg, autostart },
        ),
{
    lemma_parse_decimal(cfg.default_minutes);
}

/// Law: opening the window and saving without edits leaves the stored
/// configuration as it was: reading back the entries stored for the
/// configuration that the window hands over gives the configuration that
/// the window was opened on.
pub proof fn lemma_unedited_save_keeps_stored_config(cfg: CaffeineConfig, autostart: bool)
    ensures
        ({
            let saved = step(initial(cfg, autostart), Message::Save).1;
            &&& saved is Some
            &&& config_from(entries_of(saved->0.config)) == cfg
        }),
{
    lemma_save_unedited(cfg, autostart);
    lemma_load_after_save(cfg);
}

/// Law: each toggle changes its own field and nothing else (not the other
/// flags, the minutes text or the save status), and stores nothing.
pub proof fn lemma_toggles_change_only_their_field(v: AppView, b: bool)
    ensures
        ({
            let (w, out) = step(v, Message::InhibitIdle(b));
            &&& w.inhibit_idle == b
            &&& w.inhibit_sleep == v.inhibit_sleep
            &&& w.notify_on_toggle == v.notify_on_toggle
            &&& w.autostart == v.autostart
            &&& w.default_minutes_text == v.default_minutes_text
            &&& w.status == v.status
            &&& out is None
        }),
        ({
            let (w, out) = step(v, Message::InhibitSleep(b));
            &&& w.inhibit_sleep == b
            &&& w.inhibit_idle == v.inhibit_idle
            &&& w.notify_on_toggle == v.notify_on_toggle
            &&& w.autostart == v.autostart
            &&& w.default_minutes_text == v.default_minutes_text
            &&& w.status == v.status
            &&& out is None
        }),
        ({
            let (w, out) = step(v, Message::NotifyOnToggle(b));
            &&& w.notify_on_toggle == b
            &&& w.inhibit_idle == v.inhibit_idle
            &&& w.inhibit_sleep == v.inhibit_sleep
            &&& w.autostart == v.autostart
            &&& w.default_minutes_text == v.default_minutes_text
            &&& w.status == v.status
            &&& out is None
        }),
        ({
            let (w, out) = step(v, Message::Autostart(b));
            &&& w.autostart == b
            &&& w.inhibit_idle == v.inhibit_idle
            &&& w.inhibit_sleep == v.inhibit_sleep
            &&& w.notify_on_toggle == v.notify_on_toggle
            &&& w.default_minutes_text == v.default_minutes_text
            &&& w.status == v.status
            &&& out is None
        }),
{
}

/// Law: the window opens showing each stored flag as it is, and a save
/// stores each flag of the window as it is, so a flag the user sets is the
/// flag that is stored.
pub proof fn lemma_flags_pass_through(cfg: CaffeineConfig, autostart: bool, v: AppView)
    ensures
        initial(cfg, autostart).inhibit_idle == cfg.inhibit_idle,
        initial(cfg, autostart).inhibit_sleep == cfg.inhibit_sleep,
        initial(cfg, autostart).notify_on_toggle == cfg.notify_on_toggle,
        initial(cfg, autostart).autostart == autostart,
        step(v, Message::Save).0 == v,
        step(v, Message::Save).1 is Some,
        step(v, Message::Save).1->0.config.inhibit_idle == v.inhibit_idle,
        step(v, Message::Save).1->0.config.inhibit_sleep == v.inhibit_sleep,
        step(v, Message::Save).1->0.config.notify_on_toggle == v.notify_on_toggle,
        step(v, Message::Save).1->0.autostart == v.autostart,
{
}

/// Law: setting a flag and saving stores that flag, and leaves the other
/// flags as the window was opened with.
pub proof fn lemma_set_then_save(cfg: CaffeineConfig, autostart: bool, b: bool)
    ensures
        ({
            let v1 = step(initial(cfg, autostart), Message::InhibitIdle(b)).0;
            let saved = step(v1, Message::Save).1->0;
            &&& saved.config.inhibit_idle == b
            &&& saved.config.inhibit_sleep == cfg.inhibit_sleep
            &&& saved.config.notify_on_toggle == cfg.notify_on_toggle
            &&& saved.config.default_minutes == cfg.default_minutes
            &&& saved.autostart == autostart
        }),
        ({
            let v1 = step(initial(cfg, autostart), Message::NotifyOnToggle(b)).0;
            let saved = step(v1, Message::Save).1->0;
            &&& saved.config.notify_on_toggle == b
            &&& saved.config.inhibit_idle == cfg.inhibit_idle
            &&& saved.config.inhibit_sleep == cfg.inhibit_sleep
            &&& saved.config.default_minutes == cfg.default_minutes
            &&& saved.autostart == autostart
        }),
{
    lemma_parse_decimal(cfg.default_minutes);
}

/// `10` to the power `n`.
pub open spec fn pow10(n: nat) -> nat
    decreases n,
{
    if n == 0 {
        1
    } else {
        10 * pow10((n - 1) as nat)
    }
}

proof fn lemma_digits_value_bound(s: Seq<char>)
    requires
        all_digits(s),
    ensures
        0 <= digits_value(s) < pow10(s.len()),
    decreases s.len(),
{
    if s.len() > 0 {
        let t = s.drop_last();
        assert(all_digits(t)) by {
            assert forall|i: int| 0 <= i < t.len() implies is_digit(#[trigger] t[i]) by {
                assert(t[i] == s[i]);
            }
        }
        lemma_digits_value_bound(t);
        assert(is_digit(s[s.len() - 1]));
    }
}

/// Law: minutes text that the field accepted saves as at most 9999
/// minutes, the number it writes (0 for an empty field).
pub proof fn lemma_accepted_text_saves_its_number(v: AppView)
    requires
        accepts_minutes_text(v.default_minutes_text),
    ensures
        config_of(v).default_minutes == (if v.default_minutes_text.len() == 0 {
            0
        } else {
            digits_value(v.default_minutes_text)
        }),
        config_of(v).default_minutes <= 9999,
{
    let s = v.default_minutes_text;
    lemma_digits_value_bound(s);
    assert(pow10(0) == 1);
    assert(pow10(1) == 10);
    assert(pow10(2) == 100);
    assert(pow10(3) == 1000);
    assert(pow10(4) == 10000);
    if s.len() > 0 {
        assert(is_digit(s[0]));
    }
}

/// Law: the minutes text only ever holds ASCII digits, from opening the
/// window on, whatever is typed.
pub proof fn lemma_text_stays_digits(cfg: CaffeineConfig, autostart: bool, v: AppView, msg: Message)
    ensures
        all_digits(initial(cfg, autostart).default_minutes_text),
        all_digits(v.default_minutes_text) ==> all_digits(step(v, msg).0.default_minutes_text),
{
    crate::decimal::lemma_decimal_digits(cfg.default_minutes as nat);
}

} // verus!
