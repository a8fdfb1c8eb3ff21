[package]
name = "cryptoauth"
version = "0.1.0"
edition = "2021"
publish = false

[dependencies]
anyhow = "1"
x25519-dalek = "2"
sha2 = "0.10"
chacha20poly1305 = { version = "0.10", default-features = false, features = ["alloc"] }
