[package]
name = "ghk"
version = "0.1.0"
edition = "2021"
publish = false

[dependencies]
anyhow = "1"
dialoguer = { version = "0.11", default-features = false }
