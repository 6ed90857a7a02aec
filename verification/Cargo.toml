[package]
name = "qovery_engine"
version = "0.1.0"
edition = "2021"
publish = false

[dependencies]
itertools = "0.10"
retry = "1"
serde = { version = "1", features = ["derive"] }
tera = { version = "1", default-features = false }
tracing = "0.1"
trust-dns-resolver = "0.20"
