[package]
name = "eth_wallet"
version = "0.1.0"
edition = "2021"
publish = false

[dependencies]
anyhow = "*"
secp256k1 = { version = "*", features = ["rand", "std"] }
tiny-keccak = { version = "*", features = ["keccak"] }
web3 = { version = "*", default-features = false, features = ["signing", "ws-tokio"] }
