[package]
name = "device_sim"
version = "0.1.0"
edition = "2021"
publish = false

[dependencies]
chrono = "0.4"
rpassword = "7"
serde = "1"
serde_derive = "1"
serde_json = "1"
uuid = { version = "1", features = ["serde"] }
