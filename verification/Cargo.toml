[package]
name = "vm"
version = "0.1.0"
edition = "2021"
publish = false

[dependencies]
sha2 = "0.10"
sha3 = "0.10"
ripemd = "0.1"
blake2 = "0.10"
tiny-keccak = { version = "2.0", features = ["keccak"] }
hex = "0.4"
