[package]
name = "skyfeed"
version = "0.1.0"
edition = "2021"
publish = false

[dependencies]
atrium-api = "*"
chrono = "0.4"
dotenv = "0.15"
env_logger = "*"
jetstream-oxide = "*"
log = "0.4"
serde = { version = "1", features = ["derive"] }
serde_json = "1"
tokio = { version = "1", features = ["full"] }
warp = "0.3"
