[package]
name = "mojo_backend"
version = "0.1.0"
edition = "2021"
publish = false

[dependencies]
askama = "*"
diplomat_core = { version = "*", features = ["hir"] }
