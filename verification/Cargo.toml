[package]
name = "mail_relay"
version = "0.1.0"
edition = "2021"
publish = false

[dependencies]
actix-web = "4"
bcrypt = "0.15"
futures = "0.3"
imap = "2"
lettre = "0.11"
log = "0.4"
mailparse = "0.14"
mongodb = "2"
native-tls = "0.2"
regex = "1"
serde = { version = "1", features = ["derive"] }
tokio = { version = "1", features = ["full"] }
