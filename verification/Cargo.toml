[package]
name = "chainloader"
version = "0.1.0"
edition = "2021"
publish = false

[dependencies]
anyhow = "*"
log = "*"
uefi = { version = "*", features = ["alloc"] }
