[package]
name = "smite"
version = "0.1.0"
edition = "2021"
publish = false

[dependencies]
async-mutex = "*"
chrono = "*"
md5 = "*"
regex = "*"
reqwest = { version = "*", default-features = false }
serde = { version = "*", features = ["derive"] }
serde_json = "*"
thiserror = "*"
