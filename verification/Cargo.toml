[package]
name = "mail_relay"
version = "0.1.0"
edition = "2021"
publish = false

[dependencies]
actix-web = "*"
actix-web-httpauth = "*"
dotenvy = "*"
env_logger = "*"
lettre = { version = "*", features = ["tokio1", "tokio1-native-tls"] }
log = "*"
serde = { version = "*", features = ["derive"] }
serde_json = "*"
validator = "*"
