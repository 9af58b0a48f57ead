[package]
name = "gated_swap"
version = "0.1.0"
edition = "2021"
publish = false

[dependencies]
solana-program = "*"
spl-token-2022 = "*"
spl-transfer-hook-interface = "*"
spl-tlv-account-resolution = "*"
spl-token-metadata-interface = "*"
