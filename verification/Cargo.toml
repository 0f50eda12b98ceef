[package]
name = "etheria_downloader"
version = "0.1.0"
edition = "2021"
publish = false

[dependencies]
serde = { version = "*", features = ["derive"] }
serde_json = "*"
tokio = { version = "*", features = ["full"] }
console = "*"
indicatif = "*"
md5 = "*"
