[package]
name = "mints_worker"
version = "0.1.0"
edition = "2021"
publish = false

[dependencies]
actix = "0.13"
chrono = "0.4"
deadpool-lapin = "*"
dotenv = "0.15"
env_logger = "*"
log = "0.4"
reqwest = { version = "*", default-features = false, features = ["json", "rustls-tls"] }
serde = { version = "1", features = ["derive"] }
serde_json = "1"
tokio = { version = "1", features = ["full"] }
tokio-stream = "0.1"
uuid = { version = "1", features = ["v4"] }
wallexerr = "*"
