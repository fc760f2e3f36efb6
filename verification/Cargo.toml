[package]
name = "ws_transport"
version = "0.1.0"
edition = "2021"
publish = false

[dependencies]
bitcode = { version = "0.6", features = ["serde"] }
bytes = "1"
futures = "0.3"
pin-project = "1"
serde = "1"
