[package]
name = "ellefuanti"
version = "0.3.0"
edition = "2021"
publish = false

[dependencies]
notify = "*"
serde_json = "1"
smol = "2"
tracing = "0.1"
