[package]
name = "sandk_offroad"
version = "0.1.0"
edition = "2021"
publish = false

[dependencies]
bevy = { version = "0.11", default-features = false, features = ["bevy_asset"] }
serde = { version = "1", features = ["derive"] }
serde_json = "1"
rand = "0.8"
anyhow = "1"
