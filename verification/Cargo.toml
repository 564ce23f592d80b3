[package]
name = "adfs_auth"
version = "0.1.0"
edition = "2021"
publish = false

[dependencies]
reqwest = { version = "=0.13.5", default-features = false, features = ["cookies", "form", "json"] }
url = "=2.5.8"
serde = { version = "=1.0.229", features = ["derive"] }
serde_json = "=1.0.151"
rand = "=0.8.8"
