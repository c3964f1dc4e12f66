[package]
name = "rlox"
version = "0.1.0"
edition = "2021"
publish = false

[dependencies]
unicode-segmentation = "*"
rustc_apfloat = "*"
anyhow = "*"
