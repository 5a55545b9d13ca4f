[package]
name = "rosu-pp-py"
version = "0.1.0"
edition = "2021"
publish = false

[dependencies]
pyo3 = "=0.23.5"
rosu-mods = { version = "=0.3.1", features = ["serde"] }
rosu-pp = { version = "=3.1.0", features = ["sync"] }
serde = "=1.0.229"
