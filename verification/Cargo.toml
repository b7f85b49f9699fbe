[package]
name = "block_engine_session"
version = "0.1.0"
edition = "2021"
publish = false

[dependencies]
tonic = "*"
bytes = "*"

[dependencies.tokio]
version = "*"
features = ["rt-multi-thread"]
