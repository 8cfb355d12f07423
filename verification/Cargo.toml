[package]
name = "sendspin_client"
version = "0.1.0"
edition = "2021"
publish = false

[dependencies]
hostname = "=0.4.2"
serde = { version = "=1.0.229", features = ["derive"] }
serde_json = "=1.0.151"
tokio = { version = "=1.53.2", features = ["rt", "rt-multi-thread", "macros", "time", "sync", "net"] }
tokio-tungstenite = "=0.30.0"
tungstenite = "=0.30.0"
futures-util = "=0.3.34"
cpal = "=0.18.2"
dirs = "=7.0.0"
discord-rich-presence = "*"
mdns-sd = "*"
flume = "*"
souvlaki = "*"
url = "*"
