[package]
name = "rustsbi_k210"
version = "0.1.0"
edition = "2021"
publish = false

[dependencies]
rustsbi = { version = "=0.3.2", default-features = false }
