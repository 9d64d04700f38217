[package]
name = "bourso_api"
version = "0.1.0"
edition = "2021"
publish = false

[dependencies]
regex = "1"
anyhow = "1"
async-stream = "0.3"
futures-util = "0.3"
tracing = "0.1"
reqwest = { version = "0.12", default-features = false, features = ["multipart"] }
