[package]
name = "device_monitor"
version = "0.1.0"
edition = "2021"
publish = false

[dependencies]
chrono = "*"
parking_lot = "*"
reqwest = { version = "*", default-features = false, features = ["json"] }
serde = { version = "*", features = ["derive"] }
sysinfo = "*"
tokio = { version = "*", features = ["rt", "rt-multi-thread", "time"] }
