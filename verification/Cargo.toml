[package]
name = "mjai_reviewer"
version = "0.1.0"
edition = "2021"
publish = false

[dependencies]
anyhow = "1"
clap = { version = "3", features = ["derive"] }
humantime-serde = "1"
minify-html = "0.10"
once_cell = "1"
serde = { version = "1", features = ["derive"] }
serde_json = "1"
serde_with = "2"
tera = "1"
url = "2"
