[package]
name = "coinswap"
version = "0.1.0"
edition = "2021"
publish = false

[dependencies]
bitcoin = "0.32"
bitcoind = "0.36"
log = "0.4"
serde_cbor = "0.11"
