[package]
name = "linera_execution"
version = "0.1.0"
edition = "2021"
publish = false

[dependencies]
tokio = { version = "1", default-features = false, features = ["sync"] }
log = "0.4"
wasmer = "=3.3.0"
