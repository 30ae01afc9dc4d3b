[package]
name = "battle_sim"
version = "0.1.0"
edition = "2021"
publish = false

[dependencies]
alloy-primitives = "0.8"
alloy-sol-types = "0.8"
risc0-zkvm = { version = "*", default-features = false, features = ["std"] }
