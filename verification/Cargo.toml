[package]
name = "zenone_core"
version = "0.1.0"
edition = "2021"
publish = false

[dependencies]
argon2 = "0.5"
chacha20poly1305 = "0.10"
chrono = "0.4"
crossbeam-channel = "0.5"
log = "0.4"
parking_lot = "0.12"
serde = { version = "1", features = ["derive"] }
thiserror = "1"
zeroize = "1"
