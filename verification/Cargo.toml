[package]
name = "refgate"
version = "0.1.0"
edition = "2021"
publish = false

[dependencies]
clap = "2"
error-chain = "0.12"
