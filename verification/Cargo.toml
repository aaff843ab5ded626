[package]
name = "receipt_verifier"
version = "0.1.0"
edition = "2021"
publish = false

[dependencies]
risc0-zkp = "1.2"
serde = { version = "1", features = ["derive"] }

[dev-dependencies]
risc0-circuit-rv32im = "1.2"
