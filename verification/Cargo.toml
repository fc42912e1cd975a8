[package]
name = "infer"
version = "0.1.0"
edition = "2021"
publish = false

[dependencies]
anyhow = "1"
half = "2"
log = "0.4"
memmap2 = "0.9"
safetensors = "*"
serde = { version = "1", features = ["derive"] }
serde_json = "1"
