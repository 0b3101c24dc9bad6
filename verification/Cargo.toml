[package]
name = "llm_retry"
version = "0.1.0"
edition = "2021"
publish = false

[dependencies]
rand = "0.8"
thiserror = "1"
tokio = { version = "1", features = ["time", "rt", "macros"] }
