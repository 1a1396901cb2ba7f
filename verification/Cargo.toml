[package]
name = "store_client"
version = "0.1.0"
edition = "2021"
publish = false

[dependencies]
serde-pickle = "*"
redis = { version = "*", features = ["tokio-comp"] }
tokio = { version = "*", features = ["time"] }
async-trait = "*"
anyhow = "*"
thiserror = "*"
