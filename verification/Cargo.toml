[package]
name = "comit"
version = "0.1.0"
edition = "2021"
publish = false

[dependencies]
bitcoin = "*"
lru = "*"
rand = "*"
serde = { version = "*", features = ["derive"] }
serde_json = "*"
proptest = "*"
