[package]
name = "hot_wallet"
version = "0.1.0"
edition = "2021"
publish = false

[dependencies]
eth-keystore = "0.5"
getrandom = "0.2"
libsecp256k1 = "0.7"
rand = "0.8"
serde = { version = "1", features = ["derive"] }
serde_derive = "1"
serde_json = "1"
tiny-bip39 = "1"
tiny-hderive = "0.3"
tiny-keccak = { version = "2", features = ["keccak"] }
