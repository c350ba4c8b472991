[package]
name = "catalog_resolver"
version = "0.1.0"
edition = "2021"
publish = false

[dependencies]
anyhow = "=1.0.104"
base64 = "=0.21.7"
crunchyroll-rs = "0.2"
rsubs-lib = "=0.1.10"
serde = { version = "=1.0.229", features = ["derive"] }
tokio = { version = "=1.54.1", features = ["sync", "rt", "macros"] }
