[package]
name = "meep"
version = "0.1.0"
edition = "2021"
publish = false

[dependencies]
rand = "=0.10.3"
syntect = { version = "=5.3.0", default-features = false, features = ["default-fancy"] }
serde = { version = "*", features = ["derive"] }
toml = "*"
