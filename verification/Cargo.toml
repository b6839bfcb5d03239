[package]
name = "onion_generator"
version = "0.1.0"
edition = "2021"
publish = false

[dependencies]
anyhow = "=1.0.104"
atty = "=0.2.14"
base32 = "=0.5.1"
base64 = "=0.21.7"
chrono = "=0.4.45"
clap = "=4.6.7"
ctrlc = "=3.5.2"
ed25519-dalek = { version = "=2.2.0", features = ["rand_core"] }
rand = "=0.8.8"
sha3 = "=0.10.9"
