[package]
name = "rustysound"
version = "0.1.0"
edition = "2021"
publish = false

[dependencies]
uuid = { version = "1", features = ["v4"] }
rand = "0.8"
serde = { version = "1", features = ["derive"] }
serde_json = "1"
once_cell = "1"
dirs = "5"
tokio = { version = "1", features = ["time"] }
