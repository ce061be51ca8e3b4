[package]
name = "fs_dkr"
version = "0.1.0"
edition = "2021"
publish = false

[dependencies]
curv-kzen = "=0.10.0"
kzen-paillier = "=0.4.3"
zk-paillier = "=0.4.4"
sha2 = "0.9"
serde = { version = "1", features = ["derive"] }
zeroize = "1"
