[package]
name = "auth_service"
version = "0.1.0"
edition = "2021"
publish = false

[dependencies]
anyhow = "=1.0.104"
axum-extra = { version = "=0.9.6", default-features = false, features = ["cookie"] }
bcrypt = "=0.15.1"
chacha20poly1305 = "=0.10.1"
chrono = "=0.4.45"
handlebars = "=5.1.2"
jsonwebtoken = "=9.3.1"
serde = { version = "=1.0.229", features = ["derive"] }
serde_json = "=1.0.154"
time = "=0.3.55"
totp-rs = { version = "=5.7.2", features = ["gen_secret", "otpauth"] }
uuid = { version = "=1.29.0", features = ["v4"] }

[dev-dependencies]
rand = "0.8"
rsa = "0.9"
