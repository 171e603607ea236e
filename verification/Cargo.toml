[package]
name = "async_kcp"
version = "0.1.0"
edition = "2021"
publish = false

[dependencies]
async-notify = "*"
async-std = { version = "1", features = ["attributes"] }
byte_string = "1"
futures = "0.3"
kcp = "*"
log = "0.4"
rand = "*"
spin = "*"
