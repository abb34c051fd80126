[package]
name = "notebook_gen"
version = "0.1.0"
edition = "2021"
publish = false

[dependencies]
openai-api-rs = "0.1"
