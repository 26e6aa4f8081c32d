[package]
name = "upload_ingress"
version = "0.1.0"
edition = "2021"
publish = false

[dependencies]
rand_core = { version = "0.6", features = ["getrandom"] }
async-std = "1"
axum = { version = "0.6", features = ["headers"] }
tracing = "0.1"
