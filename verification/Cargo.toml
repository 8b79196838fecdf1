[package]
name = "room_server"
version = "0.1.0"
edition = "2021"
publish = false

[dependencies]
bevy = { version = "0.14", default-features = false, features = ["bevy_state", "x11"] }
bevy_egui = { version = "0.29", default-features = false }
bincode = "1.3"
local-ip-address = "*"
serde = { version = "1", features = ["derive"] }
tokio = { version = "1", features = ["rt-multi-thread", "net", "sync", "time", "macros", "io-util"] }
