[package]
name = "terraform"
version = "0.1.0"
edition = "2021"
publish = false

[dependencies]
zed_extension_api = "*"
schemars = "*"
serde = { version = "1", features = ["derive"] }
