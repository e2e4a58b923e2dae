[package]
name = "gitfox"
version = "0.1.0"
edition = "2021"
publish = false

[dependencies]
regex = "=1.13.1"
sha2 = "=0.10.9"
hex = "=0.4.3"
base64 = "=0.22.1"
rand = "=0.8.8"
chrono = "=0.4.45"
actix-web = "=4.18.1"
serde = { version = "=1.0.229", features = ["derive"] }
serde_json = "=1.0.154"
log = "=0.4.35"
uuid = { version = "=1.29.1", features = ["v4"] }
jsonwebtoken = "=9.3.1"
actix = "=0.13.5"
actix-web-actors = "=4.3.1"
tokio = { version = "=1.54.1", features = ["sync", "rt", "time"] }
hostname = "=0.4.2"
aes-gcm = "=0.10.3"
bcrypt = "0.15"
urlencoding = "2"
mime_guess = "2"
