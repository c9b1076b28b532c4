[package]
name = "cim-domain-bevy"
version = "0.1.0"
edition = "2021"
publish = false

[dependencies]
async-nats = "*"
bevy = { version = "0.16", default-features = false, features = ["bevy_color", "bevy_log", "bevy_window"] }
chrono = { version = "0.4", features = ["serde"] }
crossbeam-channel = "0.5"
futures = "0.3"
parking_lot = "0.12"
rand = "0.8"
serde = { version = "1", features = ["derive"] }
serde_json = "1"
tokio = { version = "1", features = ["rt", "rt-multi-thread", "sync"] }
uuid = { version = "1", features = ["v4", "serde"] }
