[package]
name = "geng_utils"
version = "0.1.0"
edition = "2021"
publish = false

[dependencies]
rand = "0.8"
batbox = "*"
serde = { version = "1", features = ["derive"] }
anyhow = "1"
log = "0.4"
image = { version = "0.24", default-features = false, features = ["gif"] }
