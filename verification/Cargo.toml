[package]
name = "prover_service"
version = "0.1.0"
edition = "2021"
publish = false

[dependencies]
anyhow = "1"
ethers-providers = { version = "2", default-features = false }
log = "0.4"
serde = { version = "1", features = ["derive"] }
tokio = { version = "1", features = ["macros", "rt", "sync", "time"] }
tokio-stream = "0.1"
tonic = "*"
uuid = { version = "1", features = ["v4"] }
