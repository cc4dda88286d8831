[package]
name = "ipstack"
version = "0.1.0"
edition = "2021"
publish = false

[dependencies]
tokio = { version = "1", default-features = false, features = ["sync", "rt", "io-util", "macros"] }
tracing = { version = "0.1", default-features = false, features = ["std"] }
