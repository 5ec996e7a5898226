[package]
name = "sigv4_client"
version = "0.1.0"
edition = "2021"
publish = false

[dependencies]
aws-sigv4 = "0.55"
http = "0.2"
reqwest = "0.11"
serde = { version = "1", features = ["derive"] }
sha2 = "0.10"
