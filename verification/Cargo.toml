[package]
name = "bjcloudvod"
version = "0.1.0"
edition = "2021"
publish = false

[dependencies]
base64 = "*"
url = "*"
reqwest = { version = "*", default-features = false, features = ["blocking"] }
clap = { version = "*", features = ["derive"] }
colog = "*"
indicatif = "*"
indicatif-log-bridge = "*"
log = "*"
