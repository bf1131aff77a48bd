[package]
name = "caps_lock_indicator"
version = "0.1.0"
edition = "2021"
publish = false

[dependencies]
tokio = { version = "1", features = ["fs", "rt", "sync", "time"] }
