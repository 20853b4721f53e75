[package]
name = "gytmdl_gui"
version = "0.1.0"
edition = "2021"
publish = false

[dependencies]
chrono = { version = "0.4", features = ["serde"] }
lazy_static = "1"
regex = "1"
serde = { version = "1", features = ["derive"] }
serde_json = "1"
tauri = { version = "2", default-features = false }
tokio = { version = "1", features = ["rt", "rt-multi-thread", "sync", "time", "process", "io-util", "macros"] }
uuid = { version = "1", features = ["v4"] }
which = "*"
