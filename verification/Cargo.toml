[package]
name = "groth16_verifier"
version = "0.1.0"
edition = "2021"
publish = false

[dependencies]
ark-bn254 = "=0.5.0"
ark-serialize = "=0.5.0"
groth16-solana = "=0.2.0"
solana-program = "=5.1.0"

[dev-dependencies]
ark-ec = "=0.5.0"
ark-ff = "=0.5.0"
