[package]
name = "blob"
version = "0.1.0"
edition = "2021"
publish = false

[dependencies]
base64 = "0.13.1"
serde = "1.0"
