[package]
name = "back"
version = "0.1.0"
edition = "2021"
publish = false

[dependencies]
actix-files = "0.6"
actix-web = "4"
chrono = "0.4"
clap = { version = "4", features = ["derive", "env"] }
futures = "0.3"
jsonwebtoken = "9"
lettre = "0.11"
log = "0.4"
mongodb = "2"
rand = "0.8"
redis = "0.23"
serde = { version = "1", features = ["derive"] }
serde_json = "1"
thiserror = "1"
