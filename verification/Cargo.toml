[package]
name = "voprf_group"
version = "0.1.0"
edition = "2021"
publish = false

[dependencies]
curve25519-dalek = "4"
elliptic-curve = { version = "0.13", features = ["hash2curve"] }
p256 = { version = "0.13", features = ["hash2curve", "arithmetic"] }
sha2 = "0.10"
subtle = "2"
zeroize = "1"
rand_core = "0.6"
