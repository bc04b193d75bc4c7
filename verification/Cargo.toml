[package]
name = "winit"
version = "0.1.0"
edition = "2021"
publish = false

[dependencies]
android-activity = { version = "0.6", features = ["native-activity"] }
calloop = "0.14"
tracing = "0.1"
x11rb = "0.13"
