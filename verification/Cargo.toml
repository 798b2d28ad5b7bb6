[package]
name = "videoroom"
version = "0.1.0"
edition = "2021"
publish = false

[dependencies]
actix = "*"
actix-web = "*"
actix-web-actors = "*"
async-lock = "*"
dotenv = "*"
env_logger = "*"
event-listener-primitives = "*"
futures-lite = "*"
log = "*"
mediasoup = "*"
parking_lot = "*"
serde = { version = "*", features = ["derive"] }
serde_json = "*"
uuid = { version = "*", features = ["v4", "serde"] }
