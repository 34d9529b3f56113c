[package]
name = "qr_service"
version = "0.1.0"
edition = "2021"
publish = false

[dependencies]
qrcode = { version = "*", default-features = false }
image = { version = "*", default-features = false, features = ["png"] }
actix-web = "*"
serde = { version = "*", features = ["derive"] }
env_logger = "*"
log = "*"
