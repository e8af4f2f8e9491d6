[package]
name = "brutal"
version = "0.1.0"
edition = "2021"
publish = false

[dependencies]
dashmap = "=6.2.1"
once_cell = "=1.21.4"
quinn-proto-jls = { version = "=0.3.8", default-features = false }
tracing = "=0.1.44"
