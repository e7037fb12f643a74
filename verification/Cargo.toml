[package]
name = "completion-token"
version = "0.1.0"
edition = "2021"
publish = false

[dev-dependencies]
async-channel = "=2.5.0"
async-std = "=1.13.2"
smol-timeout = "=0.6.1"
tokio = { version = "=1.54.1", features = ["rt", "rt-multi-thread"] }
