[package]
name = "pkg_server"
version = "0.1.0"
edition = "2021"
publish = false

[dependencies]
anyhow = "1"
async-stream = "0.3"
azure_identity = "0.21"
azure_storage = "0.21"
azure_storage_blobs = "0.21"
bytes = "1"
futures-lite = "2"
futures-util = "0.3"
poem = "*"
tokio = { version = "1", features = ["full"] }
toml = "*"
