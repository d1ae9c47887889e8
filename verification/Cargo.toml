[package]
name = "rusty_faker_core"
version = "0.1.0"
edition = "2021"
publish = false

[dependencies]
rand = "=0.10.3"
rand_pcg = "=0.10.2"
chrono = "=0.4.45"
deunicode = "=1.6.2"
unicode-normalization = "=0.1.26"
pyo3 = { version = "*", features = ["chrono", "abi3-py310"] }
