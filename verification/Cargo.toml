[package]
name = "pomodoro_sync"
version = "0.1.0"
edition = "2021"
publish = false

[dependencies]
tokio = { version = "1", features = ["net", "time", "rt", "macros", "sync", "io-util"] }
futures = "0.3"
crossterm = { version = "0.27", features = ["event-stream"] }
clap = { version = "4", features = ["derive"] }
rand = "0.8"
url = "2"
