[package]
name = "yaml_edit_py"
version = "0.1.0"
edition = "2021"
publish = false

[dependencies]
yaml-edit = "*"
pyo3 = "*"
