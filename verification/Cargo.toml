[package]
name = "pomodoro_timer"
version = "0.1.0"
edition = "2021"
publish = false

[dependencies]
chrono = "0.4"
druid = "0.8"
image = { version = "0.24", default-features = false, features = ["gif"] }
