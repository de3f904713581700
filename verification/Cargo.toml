[package]
name = "marketplace_builder"
version = "0.1.0"
edition = "2021"
publish = false

[dependencies]
anyhow = "=1.0.104"
async-broadcast = "=0.7.2"
async-compatibility-layer = { version = "=1.2.1", default-features = false }
async-lock = "=2.8.0"
async-std = "=1.13.2"
committable = "*"
surf = { version = "=2.3.2", default-features = false }
tracing = { version = "0.1", default-features = false }
vbs = { version = "=0.1.7", default-features = false }
