[package]
name = "majax-mlkem"
version = "0.1.0"
edition = "2021"
publish = false

[dependencies]
pqcrypto-mlkem = "*"
pqcrypto-traits = "*"
base64 = "*"
serde = { version = "1", features = ["derive"] }
serde_json = "1"
