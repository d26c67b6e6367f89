[package]
name = "text_embedding"
version = "0.1.0"
edition = "2021"
publish = false

[dependencies]
anyhow = "=1.0.104"
fastembed = { version = "=4.9.1", default-features = false, features = ["online", "ort-load-dynamic"] }
hf-hub = { version = "=0.4.3", default-features = false }
napi = "=2.16.17"
napi-derive = "=2.16.13"
