[package]
name = "earnproof"
version = "0.1.0"
edition = "2021"
publish = false

[dependencies]
soroban-sdk = "=29.0.1"
stellar-strkey = "=0.0.13"
