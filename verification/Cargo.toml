[package]
name = "lance_sync_client"
version = "0.1.0"
edition = "2021"
publish = false

[dependencies]
arrow-array = "*"
arrow-ipc = "*"
arrow-schema = "*"
tokio = { version = "*", features = ["rt-multi-thread", "sync"] }
futures = "*"
anyhow = "*"
chrono = "*"
once_cell = "*"
