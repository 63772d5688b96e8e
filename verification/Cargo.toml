[package]
name = "chess_attest"
version = "0.1.0"
edition = "2021"
publish = false

[dependencies]
sha2 = "=0.10.9"
k256 = "=0.13.4"
cozy-chess = "=0.3.4"
hex = "=0.4.3"
bincode = "=1.3.3"
serde = { version = "=1.0.229", features = ["derive"] }
bytemuck = "=1.25.2"
anyhow = "=1.0.104"
rand_core = { version = "=0.6.4", features = ["getrandom"] }
bonsai-sdk = "=1.4.3"
risc0-zkvm = { version = "=3.0.6", default-features = false, features = ["client"] }
