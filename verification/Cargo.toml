[package]
name = "better_ept"
version = "0.1.0"
edition = "2021"
publish = false

[dependencies]
url = "*"
reqwest = { version = "*", default-features = false, features = ["gzip", "brotli"] }
serde = { version = "*", features = ["derive"] }
thiserror = "*"
anyhow = "*"
