[package]
name = "taskmodel"
version = "0.1.0"
edition = "2021"
publish = false

[dependencies]
uuid = { version = "=1.27.0", features = ["serde"] }
http = "=1.5.0"
chrono = "=0.4.45"
serde = { version = "=1.0.229", features = ["derive"] }
