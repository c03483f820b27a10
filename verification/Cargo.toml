[package]
name = "sifredb"
version = "0.1.0"
edition = "2021"
publish = false

[dependencies]
aes-siv = "0.7"
chacha20poly1305 = "0.10"
clap = { version = "4", features = ["derive"] }
hkdf = "0.12"
hmac = "0.12"
rand = "0.8"
secrecy = "0.8"
sha2 = "0.10"
thiserror = "1"
zeroize = "1"

[dev-dependencies]
hex = "0.4"
