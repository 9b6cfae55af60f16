[package]
name = "barber2go"
version = "0.1.0"
edition = "2021"
publish = false

[dependencies]
chrono = "0.4"
actix-web = "4"
tokio = { version = "1", features = ["sync", "macros", "rt-multi-thread"] }
tokio-stream = { version = "0.1", features = ["sync"] }
serde = { version = "1", features = ["derive"] }
serde_json = "1"
web-push = "0.10"
