[package]
name = "pychangepoint"
version = "0.1.0"
edition = "2021"
publish = false

[dependencies]
changepoint = "=0.15.0"
rv = "=0.19.2"
rand = "=0.9.5"
pyo3 = "=0.30.1"
