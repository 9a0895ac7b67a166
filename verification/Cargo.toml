[package]
name = "bear_bridge_engine"
version = "0.1.0"
edition = "2021"
publish = false

[dependencies]
polars = { version = "=0.52.0", default-features = false, features = ["lazy", "iejoin", "cross_join", "abs", "fmt"] }
polars-arrow = "=0.52.0"
arrow = { version = "=60.1.0", features = ["pyarrow", "ffi"] }
pyo3 = "=0.29.3"
serde_json = "=1.0.154"
