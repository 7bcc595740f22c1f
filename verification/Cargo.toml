[package]
name = "ollama_params"
version = "0.1.0"
edition = "2021"
publish = false

[dependencies]
schemars = "0.8"
serde = "1"
serde_json = "1"
