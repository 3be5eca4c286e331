[package]
name = "iterum_daemon"
version = "0.1.0"
edition = "2021"
publish = false

[dependencies]
actix-multipart = { version = "0.7", default-features = false }
actix-rt = "2"
actix-web = { version = "4", default-features = false, features = ["macros"] }
async-std = "1"
dotenv = "0.15"
env_logger = "0.11"
futures = "0.3"
listenfd = "1"
log = "0.4"
rand = "0.8"
serde = { version = "1", features = ["derive"] }
serde_json = "1"
sled = "0.34"
