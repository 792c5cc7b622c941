[package]
name = "cloud"
version = "0.1.0"
edition = "2021"
publish = false

[dependencies]
anyhow = "1"
blake3 = "*"
bs58 = "*"
clap = "4"
ed25519-dalek = "2"
futures-util = "0.3"
keyring = "*"
rand = "0.8"
reqwest = { version = "*", default-features = false, features = ["blocking"] }
serde = { version = "1", features = ["derive"] }
serde_json = "1"
tempfile = "3"
tokio = { version = "1", features = ["rt-multi-thread", "macros", "fs", "io-util", "signal"] }
tokio-util = { version = "0.7", features = ["codec"] }
warp = { version = "0.3", default-features = false }
zeroize = "1"
