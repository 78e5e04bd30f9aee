[package]
name = "arbuz_orbital"
version = "0.1.0"
edition = "2021"
publish = false

[dependencies]
sha2 = "=0.10.9"
anyhow = "=1.0.104"
