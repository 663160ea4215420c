[package]
name = "forza_chroma"
version = "0.1.0"
edition = "2021"
publish = false

[dependencies]
clap = "*"
rgb = "*"
serde = { version = "*", features = ["derive"] }
tokio = { version = "*", features = ["full"] }
toml = "*"
