[package]
name = "langfuse_tracker"
version = "0.1.0"
edition = "2021"
publish = false

[dependencies]
base64 = "*"
chrono = "*"
uuid = { version = "*", features = ["v4"] }
reqwest = { version = "*", default-features = false }

[dev-dependencies]
serde_json = "*"
