[package]
name = "keyls"
version = "0.1.0"
edition = "2021"
publish = false

[dependencies]
fs-err = "*"
anyhow = "*"
clap = { version = "*", features = ["derive"] }
cryptoki = "0.3"
kmip-protocol = { version = "*", features = ["tls-with-openssl"] }
prettytable-rs = "*"
