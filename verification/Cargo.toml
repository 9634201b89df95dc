[package]
name = "url_normalizer"
version = "0.1.0"
edition = "2021"
publish = false

[dependencies]
anyhow = "1"
derive_more = "0.99"
futures = "0.3"
hyper = { version = "0.14", features = ["server", "http1", "tcp"] }
open = "3"
pin-project-lite = "0.2"
reqwest = { version = "0.11", default-features = false, features = ["rustls-tls"] }
serde = { version = "1", features = ["derive"] }
serde_json = { version = "1", features = ["raw_value"] }
thiserror = "1"
tokio = { version = "1", features = ["full"] }
tokio-tungstenite = "0.16"
tracing = "0.1"
tracing-subscriber = "0.3"
