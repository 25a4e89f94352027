[package]
name = "nolp"
version = "0.1.0"
edition = "2021"
publish = false

[dependencies]
anyhow = "=1.0.104"
crossterm = { version = "=0.27.0", features = ["event-stream"] }
futures = "=0.3.34"
ratatui = "=0.25.0"
serialport = { version = "=4.10.1", default-features = false }
tokio = { version = "=1.53.2", features = ["rt-multi-thread", "macros", "sync", "time"] }
