[package]
name = "ledger_wallet"
version = "0.1.0"
edition = "2021"
publish = false

[dependencies]
bincode = "1"
bs58 = "0.5"
hex = "0.4"
k256 = "0.13"
rand_core = { version = "0.6", features = ["getrandom"] }
ripemd = "0.1"
rocksdb = { version = "*", default-features = false }
serde = { version = "1", features = ["derive"] }
