[package]
name = "namecheap"
version = "0.1.0"
edition = "2021"
publish = false

[dependencies]
serde = { version = "=1.0.229", features = ["derive"] }
serde_json = "=1.0.154"
dotenv = "=0.15.0"
reqwest = { version = "=0.12.28", default-features = false, features = ["rustls-tls"] }
