//! Verified core of cosmic-caffeine, an idle/sleep inhibitor for the COSMIC
//! desktop.
//!
//! The applet and the settings window are state machines: their decisions
//! live here as functions from state and message to the next state and the
//! work to perform, and the GUI around them performs that work (D-Bus
//! inhibit calls, timers, notifications, config storage).

pub mod applet;
pub mod autostart;
pub mod config;
pub mod decimal;
pub mod inhibit;
pub mod settings;

use vstd::prelude::*;

verus! {

/// The application id, also the namespace of the stored configuration.
pub const APP_ID: &'static str = "io.github.atayozcan.CosmicCaffeine";

/// The name of the applet's executable.
pub const BIN_NAME: &'static str = "cosmic-caffeine";

} // verus!
