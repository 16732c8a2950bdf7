[package]
name = "token_budgets_rig"
version = "0.0.0"
edition = "2021"
publish = false

[dependencies]
anyhow = "=1.0.104"
