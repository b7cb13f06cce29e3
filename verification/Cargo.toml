[package]
name = "pyrefly_analyzer"
version = "0.1.0"
edition = "2021"
publish = false

[dependencies]
pyo3 = "=0.29.3"
lsp-types = "=0.97.0"
