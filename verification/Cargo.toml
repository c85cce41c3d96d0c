[package]
name = "sophon"
version = "0.1.0"
edition = "2021"
publish = false

[dependencies]
serde = { version = "*", features = ["derive"] }
serde_json = "*"
tokio = { version = "*", features = ["full"] }
reqwest = { version = "=0.12.28", features = ["json", "multipart"] }
reqwest-oauth1 = "=0.3.0"
web3 = "=0.19.0"
futures-micro = "=0.5.0"
