[package]
name = "buschat"
version = "0.1.0"
edition = "2021"
publish = false

[dependencies]
actix-rt = "2"
anyhow = "1"
futures = "0.3"
rustyline = "*"
serde = { version = "1", features = ["derive"] }
tokio = { version = "1", features = ["sync"] }
ya-service-bus = "*"
