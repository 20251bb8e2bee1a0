[package]
name = "dygma_api"
version = "0.1.0"
edition = "2021"
publish = false

[dependencies]
async-hid = "*"
bytes = "*"
clap = { version = "*", features = ["derive"] }
futures = "*"
serde = { version = "*", features = ["derive"] }
serde_json = "*"
strsim = "*"
tokio = { version = "*", features = ["full"] }
tokio-serial = "*"
tokio-stream = "*"
tokio-util = { version = "*", features = ["io"] }
winnow = "*"
