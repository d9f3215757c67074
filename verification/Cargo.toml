[package]
name = "account_decoder_client_types"
version = "0.1.0"
edition = "2021"
publish = false

[dependencies]
base64 = "0.22"
bs58 = "0.5"
zstd = "0.13"
serde_json = "1"
serde = "1"
serde_derive = "1"
solana-account = "*"
solana-pubkey = "*"
