[package]
name = "asset_loaders"
version = "0.1.0"
edition = "2021"
publish = false

[dependencies]
notify = "=4.0.18"
rocket = { version = "0.5", default-features = false }
