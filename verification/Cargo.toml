[package]
name = "rstream_server"
version = "0.1.0"
edition = "2021"
publish = false

[dependencies]
async-std = "=1.13.2"
async-tungstenite = { version = "=0.35.0", features = ["async-std-runtime"] }
byteorder = "=1.5.0"
chrono = "=0.4.45"
enigo = "=0.6.1"
futures = "=0.3.34"
gstreamer = "0.23"
rand = "=0.8.8"
rusty_enet = "=0.4.0"
serde_json = "=1.0.154"
vigem-client = "=0.1.4"
