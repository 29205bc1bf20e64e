[package]
name = "pomo_tui"
version = "0.1.0"
edition = "2021"
publish = false

[dependencies]
futures = "*"
ratatui = "*"
serde = { version = "*", features = ["derive"] }
serde_json = "*"
tokio = { version = "*", features = ["macros", "rt-multi-thread", "sync", "time"] }
