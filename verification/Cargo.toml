[package]
name = "car_telemetry"
version = "0.1.0"
edition = "2021"
publish = false

[dependencies]
serialport = { version = "4", default-features = false }
slint = { version = "1", default-features = false, features = ["std", "compat-1-2"] }
