[package]
name = "towercheck"
version = "0.1.0"
edition = "2021"
publish = false

[dependencies]
bitcoin = { version = "*", features = ["secp-recovery", "rand-std", "serde"] }
serde = { version = "*", features = ["derive"] }
rocket = { version = "*", features = ["json"] }
tokio = { version = "*", features = ["rt", "rt-multi-thread", "macros"] }
