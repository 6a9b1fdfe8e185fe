[package]
name = "librpc"
version = "0.1.0"
edition = "2021"
publish = false

[dependencies]
crossbeam-channel = "*"
futures = "*"
serde = { version = "*", features = ["derive"] }
serde_json = "*"
async-timer-rs = "*"
