[package]
name = "cache_headers"
version = "0.1.0"
edition = "2021"
publish = false

[dependencies]
actix-web = { version = "3", default-features = false }
actix-service = "1"
futures = "0.3"
serde = { version = "1", features = ["derive"] }
