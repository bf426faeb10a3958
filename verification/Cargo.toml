[package]
name = "strawberry_core_rs"
version = "0.1.0"
edition = "2021"
publish = false

[dependencies]
apollo-compiler = "*"
serde_json = "*"
pyo3 = "*"
