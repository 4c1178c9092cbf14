[package]
name = "rest_bridge"
version = "0.1.0"
edition = "2021"
publish = false

[dependencies]
tokio = { version = "*", features = ["rt-multi-thread", "time"] }
reqwest = { version = "*", default-features = false }
once_cell = "*"

[dev-dependencies]
serde_json = "*"
