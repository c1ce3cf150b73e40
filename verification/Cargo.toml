[package]
name = "hyper_lifecycle"
version = "0.1.0"
edition = "2021"
publish = false

[dependencies]
tokio = { version = "1", features = ["sync", "time", "rt", "macros"] }
tokio-util = "0.7"
async-trait = "0.1"
thiserror = "2"
tracing = "0.1"
