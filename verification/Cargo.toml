[package]
name = "task_registry"
version = "0.1.0"
edition = "2021"
publish = false

[dependencies]
ruint = "=1.12.3"
stylus-sdk = "=0.6.1"
