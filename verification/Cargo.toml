[package]
name = "deities"
version = "0.1.0"
edition = "2021"
publish = false

[dependencies]
curl = "*"
colored = "*"
uname = "*"
hostname = "*"
libc = "*"
users = "*"
glob = "*"
fs2 = "*"
toml = "*"
serde = { version = "*", features = ["derive"] }
serde_json = "*"
chrono = "*"
uuid = { version = "*", features = ["v4"] }
