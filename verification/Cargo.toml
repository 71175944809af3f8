[package]
name = "watcher"
version = "0.1.0"
edition = "2021"
publish = false

[dependencies]
chrono = "=0.4.45"
cli-clipboard = "=0.4.0"
crossterm = "=0.26.1"
ratatui = "=0.22.0"
riven = "=2.20.0"
tokio = { version = "=1.54.1", features = ["macros", "rt-multi-thread"] }
