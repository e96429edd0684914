[package]
name = "novaos"
version = "0.1.0"
edition = "2021"
publish = false

[dependencies]
sha2 = "=0.10.9"
uefi = { version = "=0.41.0", features = ["alloc"] }
