[package]
name = "kegs"
version = "0.1.0"
edition = "2021"
publish = false

[dependencies]
exp-rs = "=0.1.0"
picojson = "=0.2.3"
rustc_apfloat = "=0.2.3"
