[package]
name = "rusty_auth"
version = "0.1.0"
edition = "2021"
publish = false

[dependencies]
actix-cors = "0.6"
actix-web = "4"
base64 = "0.21"
ciborium = "0.2"
dotenv = "0.15"
env_logger = "0.10"
rand = "0.8"
ring = "0.17"
serde = { version = "1", features = ["derive"] }
serde_repr = "0.1"
sqlx = { version = "0.7", default-features = false, features = ["runtime-tokio", "sqlite"] }
