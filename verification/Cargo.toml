[package]
name = "radix_engine"
version = "0.1.0"
edition = "2021"
publish = false

[dependencies]
hex = "0.4"
blake2 = "0.10"
serde = { version = "1", features = ["derive"] }
