[package]
name = "chai_framework"
version = "0.1.0"
edition = "2021"
publish = false

[dependencies]
anyhow = "1"
ratatui = "0.29"
russh = "*"
tokio = { version = "1", features = ["sync", "rt-multi-thread", "macros", "time"] }
tracing = "0.1"
tracing-subscriber = { version = "0.3", features = ["env-filter"] }
