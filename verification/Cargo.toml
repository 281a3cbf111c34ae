[package]
name = "fuel_block_verifier"
version = "0.1.0"
edition = "2021"
publish = false

[dependencies]
fuel-merkle = "=0.65.0"
fuel-tx = "=0.65.0"
fuel-types = "=0.65.0"
fuel-core-client = "=0.47.1"
cynic = "=3.11.0"
tokio = { version = "=1.53.2", features = ["macros", "rt-multi-thread"] }
anyhow = "=1.0.104"
env_logger = "*"
