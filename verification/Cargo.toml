[package]
name = "rose"
version = "0.1.0"
edition = "2021"
publish = false

[dependencies]
async-channel = "*"
tokio = { version = "*", features = ["rt-multi-thread"] }
