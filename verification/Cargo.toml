[package]
name = "angstrom_consensus"
version = "0.1.0"
edition = "2021"
publish = false

[dependencies]
secp256k1 = { version = "*", features = ["recovery", "rand"] }
ethers-core = "*"
rand = "*"

[dev-dependencies]
hex = "*"
