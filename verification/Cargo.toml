[package]
name = "tokio_util"
version = "0.1.0"
edition = "2021"
publish = false

[dependencies]
futures = "0.1"
tokio = "0.1"
tokio-channel = "0.1"
