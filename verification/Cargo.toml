[package]
name = "signet_faucet"
version = "0.1.0"
edition = "2021"
publish = false

[dependencies]
actix = "0.13"
actix-cors = "0.7"
actix-web = "4"
anyhow = "1"
bitcoin = "0.32"
bitcoincore-rpc = "0.19"
cln-rpc = "0.1"
serde = { version = "1", features = ["derive"] }
