[package]
name = "holmes_rs"
version = "0.1.0"
edition = "2021"
publish = false

[dependencies]
ndarray = "0.16"
pyo3 = { version = "0.23", features = ["abi3-py39"] }
thiserror = "2"
