[package]
name = "sol-earna"
version = "0.1.0"
edition = "2021"
publish = false

[dependencies]
anchor-lang = { version = "0.30.1", features = ["init-if-needed"] }
anchor-spl = { version = "0.30.1" }
spl-tlv-account-resolution = { version = "0.6.3" }
spl-transfer-hook-interface = { version = "0.6.3" }
