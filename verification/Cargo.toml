[package]
name = "local_async"
version = "0.1.0"
edition = "2021"
publish = false

[dependencies]
slab = "0.4"
scoped-tls = "1"
pin-project = "1"
