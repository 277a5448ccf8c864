[package]
name = "nano_recorder"
version = "0.1.0"
edition = "2021"
publish = false

[dependencies]
rand = "0.8"
stopwatch = "0.0.7"
serde = { version = "1", features = ["derive"] }
actix-web = { version = "3", features = ["openssl"] }
openssl = "0.10"
dotenv = "0.15"
gstreamer = "0.16"
