[package]
name = "notify_store"
version = "0.1.0"
edition = "2021"
publish = false

[dependencies]
anyhow = "1"
async-trait = "*"
libmdbx = "*"
log = "0.4"
tokio = { version = "1", features = ["rt", "sync"] }
