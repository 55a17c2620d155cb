[package]
name = "colophon"
version = "0.1.0"
edition = "2021"
publish = false

[dependencies]
chrono = "=0.4.45"
sha2 = "=0.10.9"
rand = "=0.8.8"
mime_guess = "=2.0.5"
serde = { version = "=1.0.229", features = ["derive"] }
toml = "=0.8.23"
url = "=2.5.8"
serde_json = "=1.0.154"
jsonwebtoken = "=9.3.1"
minijinja = { version = "=2.24.0", features = ["loader"] }
uuid = { version = "=1.29.0", features = ["v4"] }
argon2 = "0.5"
