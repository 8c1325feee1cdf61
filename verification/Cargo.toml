[package]
name = "smtp_probe"
version = "0.1.0"
edition = "2021"
publish = false

[dependencies]
rand = { version = "=0.8.8", features = ["small_rng"] }
async-smtp = { version = "=0.3.4", features = ["socks5"] }
async-native-tls = "=0.3.3"
async-std = "=1.13.2"
fast-socks5 = "0.3"
trust-dns-proto = { version = "=0.23.2", default-features = false }
log = "=0.4.34"
serde = { version = "=1.0.229", features = ["derive"] }
