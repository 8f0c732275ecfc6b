[package]
name = "raspecio"
version = "0.1.0"
edition = "2021"
publish = false

[dependencies]
rppal = "*"
pyo3 = "*"
pyo3-polars = "*"
polars-core = "*"
