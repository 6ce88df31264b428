[package]
name = "kcp_listener"
version = "0.1.0"
edition = "2021"
publish = false

[dependencies]
kcp = "*"
futures = "0.1"
tokio-core = "0.1"
