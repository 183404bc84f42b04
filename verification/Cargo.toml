[package]
name = "tui_dispatch"
version = "0.1.0"
edition = "2021"
publish = false

[dependencies]
color-eyre = "0.6"
crossterm = "0.27"
lazy_static = "1.4"
log = "0.4"
ratatui = "0.24"
serde = { version = "1", features = ["derive"] }
signal-hook = "0.3"
tokio = { version = "1", features = ["full"] }
tracing = "0.1"
tui-input = "0.8"
unicode-width = "0.1"
