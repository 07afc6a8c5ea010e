[package]
name = "leo"
version = "0.1.0"
edition = "2021"
publish = false

[dependencies]
anyhow = "1.0.104"
serde = { version = "1.0.229", features = ["derive"] }
reqwest = { version = "0.11.27", default-features = false, features = ["blocking", "json", "multipart"] }
