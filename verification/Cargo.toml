[package]
name = "clarity_lsp"
version = "0.1.0"
edition = "2021"
publish = false

[dependencies]
serde_json = "=1.0.154"
tokio = { version = "=1.54.1", features = ["io-std", "rt"] }
tower-lsp = "=0.20.0"
