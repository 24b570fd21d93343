[package]
name = "ferrostar"
version = "0.1.0"
edition = "2021"
publish = false

[dependencies]
geo = "*"
serde = { version = "1", features = ["derive"] }
uniffi = { version = "*", default-features = false }
