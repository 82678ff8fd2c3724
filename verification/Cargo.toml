[package]
name = "ares"
version = "0.1.0"
edition = "2021"
publish = false

[dependencies]
anyhow = "=1.0.104"
grafeo = "0.5"
oxigraph = { version = "=0.5.13", default-features = false }
reasonable = "=0.3.2"
serde = { version = "=1.0.229", features = ["derive"] }
serde_json = "=1.0.154"
