[package]
name = "wasmrs"
version = "0.1.0"
edition = "2021"
publish = false

[dependencies]
base64 = "0.21"
bytes = "1"
serde = { version = "1", features = ["derive"] }
serde_json = "1"
once_cell = "1"
parking_lot = "0.12"
tokio = { version = "1", default-features = false, features = ["sync"] }
futures = "0.3"
