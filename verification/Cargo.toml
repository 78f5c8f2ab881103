[package]
name = "rocks_store"
version = "0.1.0"
edition = "2021"
publish = false

[dependencies]
rocksdb = { version = "*", default-features = false }
pyo3 = { version = "*", features = ["extension-module"] }
