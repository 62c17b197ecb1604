[package]
name = "weefee"
version = "0.1.0"
edition = "2021"
publish = false

[dependencies]
anyhow = "=1.0.104"
crossterm = "=0.29.0"
dbus = { version = "=0.9.12", features = ["vendored"] }
nmdbus = "=1.50.0"
ratatui = "=0.30.2"
throbber-widgets-tui = "=0.11.1"
tokio = { version = "=1.54.1", features = ["rt-multi-thread", "macros", "sync", "time"] }
tui-input = { version = "=0.15.5", default-features = false }
