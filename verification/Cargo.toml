[package]
name = "selfhydro"
version = "0.1.0"
edition = "2021"
publish = false

[dependencies]
anyhow = "=1.0.104"
bytes = "*"
chrono = "=0.4.45"
dotenv = "=0.15.0"
env_logger = "=0.11.11"
google-cloud-storage = "=1.20.0"
influxdb = { version = "=0.8.0", features = ["derive"] }
log = "=0.4.34"
rppal = "=0.22.1"
serde = { version = "=1.0.229", features = ["derive"] }
serde_json = "=1.0.151"
tokio = { version = "=1.53.2", features = ["macros", "rt-multi-thread", "time"] }
