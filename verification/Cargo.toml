[package]
name = "desktop_bridge"
version = "0.1.0"
edition = "2021"
publish = false

[dependencies]
reqwest = { version = "0.11", features = ["cookies", "multipart"] }
rust_socketio = "0.4"
serde = { version = "1", features = ["derive"] }
