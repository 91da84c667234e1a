[package]
name = "message_board"
version = "0.1.0"
edition = "2021"
publish = false

[dependencies]
chrono = { version = "=0.4.45", features = ["serde"] }
actix-web = { version = "=4.15.0", features = ["rustls-0_23"] }
actix-service = "=2.0.3"
actix_route_rate_limiter = "=0.3.1"
futures-util = "=0.3.34"
tokio = { version = "=1.53.2", features = ["macros", "rt-multi-thread", "time"] }
serde = { version = "=1.0.229", features = ["derive"] }
serde_json = "=1.0.151"
thiserror = "=2.0.21"
log = "=0.4.34"
env_logger = "=0.11.11"
dotenv = "=0.15.0"
rustls = "=0.23.45"
rustls-pemfile = "=2.2.0"
zstd = "=0.13.3"
aws-config = "=1.12.0"
aws-sdk-s3 = "=1.152.0"
aws-sdk-dynamodb = "=1.130.0"
