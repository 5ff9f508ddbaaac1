[package]
name = "faro_invoice_token"
version = "0.1.0"
edition = "2021"
publish = false

[dependencies]
soroban-sdk = "*"
stellar-access = "*"
stellar-macros = "*"
stellar-tokens = "*"
