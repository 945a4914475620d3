[package]
name = "xrizer_wxr"
version = "0.1.0"
edition = "2021"
publish = false

[dependencies]
glam = "*"
socket2 = "*"
serde = { version = "1", features = ["derive"] }
serde_json = "1"
log = "*"
