[package]
name = "ui"
version = "0.1.0"
edition = "2021"
publish = false

[dependencies]
anyhow = "1"
itertools = "0.13"
rust-i18n = "3"
serde = { version = "1", features = ["derive"] }
serde_json = "1"
