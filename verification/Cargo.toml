[package]
name = "params_de"
version = "0.1.0"
edition = "2021"
publish = false

[dependencies]
serde = "1"
thiserror = "2"

[dev-dependencies]
matchit = "0.8"
