[package]
name = "amm_orchestrator"
version = "0.1.0"
edition = "2021"
publish = false

[dependencies]
fuel-tx = "=0.66.4"
