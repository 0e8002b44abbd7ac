[package]
name = "jungle"
version = "0.1.0"
edition = "2021"
publish = false

[dependencies]
uuid = { version = "1", features = ["serde", "v4"] }
serde = { version = "1", features = ["derive"] }
thiserror = "2"
postcard = { version = "1", features = ["alloc"] }
futures = "0.3"
tokio = { version = "1", features = ["time", "rt", "macros"] }
serde_json = "1"
