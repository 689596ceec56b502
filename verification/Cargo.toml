[package]
name = "turbo-malloc"
version = "0.1.0"
edition = "2021"
publish = false

[dependencies]
mimalloc = { version = "0.1", default-features = false }
libmimalloc-sys = { version = "0.1", features = ["extended"] }
