[package]
name = "servo_media_dummy"
version = "0.1.0"
edition = "2021"
publish = false

[dependencies]
boxfnonce = "0.1"
ipc-channel = "*"
serde = { version = "1", features = ["derive"] }
