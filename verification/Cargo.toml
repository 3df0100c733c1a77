[package]
name = "runrun"
version = "0.1.0"
edition = "2021"
publish = false

[dependencies]
anyhow = "=1.0.104"
async-trait = "=0.1.92"
futures = "=0.3.34"
linkme = "=0.3.37"
ethers = { version = "=2.0.14", default-features = false, features = ["dev-rpc"] }
