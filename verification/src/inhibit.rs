//! What an inhibition asks for.
//!
//! Two locks are taken in tandem:
//!
//! 1. `org.freedesktop.login1.Manager.Inhibit` on the system bus, whose
//!    `what` argument is a colon-separated set of the classes to block
//!    (`idle`, `sleep`, ...). Its file descriptor stops automatic suspend.
//! 2. `org.freedesktop.ScreenSaver.Inhibit` on the session bus, which the
//!    compositor honours for screen blanking; it is only wanted when idle
//!    inhibition is requested.
//!
//! Mode "block" means logind refuses the action while the lock is held.

use vstd::prelude::*;
use vstd::string::*;

verus! {

/// Who asks for the lock.
pub const INHIBIT_WHO: &'static str = "cosmic-caffeine";

/// The logind inhibit mode: refuse the action while the lock is held.
pub const INHIBIT_MODE: &'static str = "block";

/// The logind `what` argument: the requested classes joined by `:`, idle
/// first; with nothing requested, `idle`, so that the toggle still has a
/// visible effect.
pub open spec fn inhibit_what(idle: bool, sleep: bool) -> Seq<char> {
    if idle && sleep {
        "idle:sleep"@
    } else if sleep {
        "sleep"@
    } else {
        "idle"@
    }
}

/// The arguments of one inhibition.
pub struct InhibitRequest {
    /// Colon-separated classes for logind.
    pub what: String,
    /// Who asks (always [`INHIBIT_WHO`]).
    pub who: &'static str,
    /// Why, shown by `systemd-inhibit --list` and the like.
    pub why: String,
    /// The logind mode (always [`INHIBIT_MODE`]).
    pub mode: &'static str,
    /// Whether to also take the session bus ScreenSaver lock.
    pub screensaver: bool,
}

impl InhibitRequest {
    /// The request for inhibiting idle and/or sleep, for the reason `why`.
    pub fn new(idle: bool, sleep: bool, why: &str) -> (r: InhibitRequest)
        ensures
            r.what@ == inhibit_what(idle, sleep),
            idle && sleep ==> r.what@ == "idle:sleep"@,
            idle && !sleep ==> r.what@ == "idle"@,
            !idle && sleep ==> r.what@ == "sleep"@,
            !idle && !sleep ==> r.what@ == "idle"@,
            r.who@ == INHIBIT_WHO@,
            r.why@ == why@,
            r.mode@ == INHIBIT_MODE@,
            r.screensaver == idle,
    {
        proof {
            reveal_strlit("idle");
            reveal_strlit("sleep");
            reveal_strlit(":");
            reveal_strlit("idle:sleep");
        }
        let mut what = String::new();
        if idle {
            what.append("idle");
        }
        if sleep {
            if idle {
                what.append(":");
            }
            what.append("sleep");
        }
        if !idle && !sleep {
            what.append("idle");
        }
        assert(what@ =~= inhibit_what(idle, sleep));
        InhibitRequest {
            what,
            who: INHIBIT_WHO,
            why: String::from_str(why),
            mode: INHIBIT_MODE,
            screensaver: idle,
        }
    }
}

} // verus!
