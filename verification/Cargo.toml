[package]
name = "dde_audio"
version = "0.1.0"
edition = "2021"
publish = false

[dependencies]
serde = { version = "1", features = ["derive"] }
serde_json = "1"
zbus = "5"
parking_lot = "0.12"
crossbeam-channel = "0.5"
libpulse-binding = "2"
