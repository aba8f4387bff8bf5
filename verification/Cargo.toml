[package]
name = "granulator"
version = "0.1.0"
edition = "2021"
publish = false

[dependencies]
rand = "0.8"
rubato = "0.12"
cpal = "0.14"
tokio = { version = "1", features = ["rt-multi-thread", "sync", "time", "macros"] }
anyhow = "1"
