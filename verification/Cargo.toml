[package]
name = "header_chain"
version = "0.1.0"
edition = "2021"
publish = false

[dependencies]
http = "*"
tower-layer = "*"
tower-service = "*"
pin-project = "*"
futures-util = "*"
