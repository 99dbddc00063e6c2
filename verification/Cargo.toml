[package]
name = "chat_relay"
version = "0.1.0"
edition = "2021"
publish = false

[dependencies]
hmac = "0.12"
jwt = "0.16"
sha2 = "0.10"
serde = { version = "1", features = ["derive"] }
serde_json = "1"
actix = "0.13"
actix-web = "4"
actix-web-actors = "4"
dotenv = "0.15"
env_logger = "0.10"
sqlx = { version = "0.7", default-features = false, features = ["runtime-tokio", "postgres"] }
