[package]
name = "player_ship"
version = "0.1.0"
edition = "2021"
publish = false

[dependencies]
bevy = { version = "=0.5.0", default-features = false }
heron = { version = "=0.12.1", features = ["2d"] }
