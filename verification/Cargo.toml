[package]
name = "minijinjasql"
version = "0.1.0"
edition = "2021"
publish = false

[dependencies]
minijinja = { version = "*", features = ["loader"] }
sha2 = "*"
pyo3 = "*"
