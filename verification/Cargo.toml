[package]
name = "fanout_server"
version = "0.1.0"
edition = "2021"
publish = false

[dependencies]
tokio = { version = "=1.53.2", default-features = false, features = ["sync", "net", "rt-multi-thread", "io-util", "macros"] }
