[package]
name = "pastebot"
version = "0.1.0"
edition = "2021"
publish = false

[dependencies]
ahash = "0.8"
axum = { version = "0.6", features = ["macros"] }
dotenvy = "0.15"
futures-core = "0.3"
parking_lot = "0.12"
reqwest = { version = "0.11", default-features = false, features = ["stream", "rustls-tls"] }
thiserror = "1"
tokio = { version = "1", features = ["full"] }
tower-http = { version = "0.4", features = ["compression-gzip"] }
tracing = "0.1"
tracing-subscriber = { version = "0.3", features = ["env-filter"] }
twilight-gateway = "0.15"
twilight-http = "0.15"
twilight-model = "0.15"
twilight-validate = "0.15"
