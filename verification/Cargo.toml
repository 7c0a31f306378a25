[package]
name = "meta_assets"
version = "0.1.0"
edition = "2021"
publish = false

[dependencies]
serde_json = "=1.0.154"
sp-core = "=43.0.0"
