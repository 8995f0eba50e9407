[package]
name = "litellm"
version = "0.1.0"
edition = "2021"
publish = false

[dependencies]
serde = { version = "=1.0.229", features = ["derive"] }
serde_json = "=1.0.154"
reqwest = { version = "=0.12.28", default-features = false, features = ["json", "multipart"] }
axum = { version = "=0.8.9", default-features = false, features = ["json"] }
pyo3 = "=0.30.1"
thiserror = "=2.0.21"
strum = { version = "=0.27.2", features = ["derive"] }
tracing = "=0.1.44"
