[package]
name = "logclient"
version = "0.1.0"
edition = "2021"
publish = false

[dependencies]
dotenvy = "*"
reqwest = { version = "*", default-features = false }
tokio = { version = "*", features = ["rt"] }
