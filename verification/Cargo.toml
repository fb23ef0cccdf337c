[package]
name = "openswap_maker"
version = "0.1.0"
edition = "2021"
publish = false

[dependencies]
bitcoin = { version = "=0.32.102", features = ["rand-std", "serde"] }
bitcoind = "0.36"
secp256k1 = { version = "0.33", features = ["rand", "std"] }
serde = { version = "=1.0.229", features = ["derive"] }
serde_cbor = "=0.11.2"
serde_json = "=1.0.154"
minicbor = { version = "=2.3.1", features = ["std", "alloc", "derive"] }
log = "=0.4.35"
tungstenite = { version = "=0.30.0", features = ["native-tls"] }
socks = "=0.3.4"
bip39 = { version = "=2.2.2", features = ["rand"] }
nostr = { version = "0.43", features = ["std"] }
