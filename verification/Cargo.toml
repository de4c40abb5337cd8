[package]
name = "sensorium"
version = "0.2.0"
edition = "2021"
publish = false

[dependencies]
chrono = { version = "0.4", default-features = false, features = ["std", "clock", "serde"] }
uuid = { version = "1", features = ["v7", "serde"] }
serde = { version = "1", features = ["derive"] }
thiserror = "2"
notify = "8"
ringbuf = "0.4"
cpal = "0.17"
objc2-app-kit = "0.3"

[dev-dependencies]
serde_json = "1"
