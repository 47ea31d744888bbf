[package]
name = "mediagetter"
version = "0.1.0"
edition = "2021"
publish = false

[dependencies]
axum = "0.5"
axum-macros = "0.2"
byte-unit = "4"
hex = "0.4"
hyper = "0.14"
image = "0.24"
image_hasher = "1"
once_cell = "1"
reqwest = "0.11"
scraper = "0.13"
serde = { version = "1", features = ["derive"] }
serde_json = "1"
thiserror = "1"
tokio = { version = "1", features = ["full"] }
url = "2"
uuid = { version = "1", features = ["v4"] }
