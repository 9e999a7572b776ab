[package]
name = "retry_fn"
version = "0.1.0"
edition = "2021"
publish = false

[dependencies]
async-std = "1"
tokio = { version = "1", default-features = false, features = ["time"] }
