[package]
name = "keybear_core"
version = "0.1.0"
edition = "2021"
publish = false

[dependencies]
base64 = "0.13"
chacha20poly1305 = "0.8"
rand_core = { version = "0.5", features = ["getrandom"] }
serde = { version = "1", features = ["derive"] }
serde_json = "1"
x25519-dalek = "1.1"
