[package]
name = "drillx"
version = "0.1.0"
edition = "2021"
publish = false

[dependencies]
equix = "*"
sha3 = "*"
serde = { version = "*", features = ["derive"] }
