[package]
name = "prime_core"
version = "0.1.0"
edition = "2021"
publish = false

[dependencies]
crypto-bigint = { version = "=0.4.9", features = ["rand_core", "rand"] }
rand = "0.8"
