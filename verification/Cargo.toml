[package]
name = "timer_capture"
version = "0.1.0"
edition = "2021"
publish = false

[dependencies]
critical-section = { version = "1.1", features = ["std"] }
embassy-hal-internal = "0.2"
