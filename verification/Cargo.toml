[package]
name = "sms_gateway"
version = "0.1.0"
edition = "2021"
publish = false

[dependencies]
actix-web = { version = "4", features = ["openssl"] }
config = "0.14"
env_logger = "0.11"
lettre = "0.11"
openssl = "0.10"
serde = { version = "1", features = ["derive"] }
time = { version = "0.3", features = ["formatting", "parsing"] }
