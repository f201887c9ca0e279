[package]
name = "faster_fishers"
version = "0.1.0"
edition = "2021"
publish = false

[dependencies]
statrs = "=0.19.1"
rayon = "=1.12.0"
rustc_apfloat = "*"
