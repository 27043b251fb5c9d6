[package]
name = "host_telemetry"
version = "0.1.0"
edition = "2021"
publish = false

[dependencies]
mongodb = "*"
bson = "*"
rocket = { version = "0.5", features = ["json"] }
