# cosmic-caffeine

An idle/sleep inhibitor for the COSMIC desktop: a panel applet that holds a
logind inhibit lock (and a ScreenSaver inhibit cookie) while "caffeine" is
on, for a chosen number of minutes or until turned off, and a settings
window for the defaults.

- `src/` is the verified library, written in Verus:
  - `applet` — the applet's state machine (acquire, release, timers and
    their generations, notifications) and what its popup shows;
  - `settings` — the settings window's state machine;
  - `autostart` — the text of the login autostart entry;
  - `config` — the stored configuration: its defaults, the entries that
    store it, and how it is read back field by field;
  - `inhibit` — the arguments of an inhibition;
  - `decimal` — printing and parsing minutes as decimal text.
- `app/` is the GUI around it (libcosmic), the D-Bus calls (zbus), timers
  (tokio), notifications and config storage (cosmic_config).
- `tests/` runs the library on concrete values.
