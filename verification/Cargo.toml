[package]
name = "mathtex"
version = "0.1.0"
edition = "2021"
publish = false

[dependencies]
latex2mathml = "=0.2.3"
tera = { version = "=1.20.1", default-features = false }
toml = "=0.8.23"
