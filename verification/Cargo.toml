[package]
name = "robot_telemetry_server"
version = "0.1.0"
edition = "2021"
publish = false

[dependencies]
anyhow = "1"
rusqlite = { version = "0.41", features = ["bundled"] }
rclrs = "0.8"
