[package]
name = "language_service"
version = "0.1.0"
edition = "2021"
publish = false

[dependencies]
bytes = "1"
httparse = "1"
serde_json = "1"
serde = { version = "1", features = ["derive"] }
lsp-types = "0.94"
tokio = { version = "1", features = ["io-util", "sync"] }
tokio-util = { version = "0.7", features = ["codec"] }
futures = "0.3"
