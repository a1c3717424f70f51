[package]
name = "monitor_scenes"
version = "0.1.0"
edition = "2021"
publish = false

[dependencies]
enigo = "*"
notify = "6"
obws = { version = "0.11", default-features = false }
serde = { version = "1", features = ["derive"] }
serde_json = "1"
tokio = { version = "1", features = ["rt-multi-thread", "sync", "time"] }
winit = { version = "0.28", default-features = false, features = ["x11"] }
