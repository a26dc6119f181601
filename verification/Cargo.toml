[package]
name = "users_api"
version = "0.1.0"
edition = "2021"
publish = false

[dependencies]
tokio-postgres = "=0.7.18"
deadpool-postgres = { version = "=0.14.2", features = ["serde"] }
deadpool = "=0.13.1"
tokio-pg-mapper = "=0.2.0"
tokio-pg-mapper-derive = "=0.2.0"
serde = { version = "=1.0.229", features = ["derive"] }
actix-web = { version = "=4.15.0", features = ["openssl"] }
openssl = "=0.10.81"
dotenv = "=0.15.0"
config = "=0.11.0"
