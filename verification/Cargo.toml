[package]
name = "twitch_message"
version = "0.1.0"
edition = "2021"
publish = false

[dependencies]
parking_lot = "=0.12.5"
serde = { version = "=1.0.229", features = ["derive"] }
twitch_types = { version = "=0.4.10", features = ["emote"] }
