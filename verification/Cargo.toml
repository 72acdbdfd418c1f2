[package]
name = "naqua"
version = "0.1.0"
edition = "2021"
publish = false

[dependencies]
colored = "2"
rustc_apfloat = "0.2"
