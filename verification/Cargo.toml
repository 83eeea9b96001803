[package]
name = "flow"
version = "0.1.0"
edition = "2021"
publish = false

[dependencies]
arc-swap = "1"
async-trait = "0.1"
rand = "0.8"
rand_chacha = "0.3"
substrait = "0.17"
tokio = { version = "1", features = ["sync"] }
