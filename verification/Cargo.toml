[package]
name = "test_os"
version = "0.1.0"
edition = "2021"
publish = false

[dependencies]
rand = "0.8"
fs2 = "0.4"
libc = "0.2"
dirs = "*"
chrono = "0.4"
serde_json = "1.0"
uuid = { version = "1.0", features = ["v4"] }
