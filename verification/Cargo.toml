[package]
name = "cosmic_caffeine"
version = "0.1.0"
edition = "2021"
publish = false

[dependencies]
zbus = "5"
tokio = { version = "1", features = ["time", "rt", "macros"] }
dirs = "6"
notify-rust = "4"
i18n-embed = { version = "0.16", features = ["fluent-system", "desktop-requester"] }
i18n-embed-fl = "0.10"
rust-embed = "8"
