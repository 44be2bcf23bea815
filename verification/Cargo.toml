[package]
name = "favis"
version = "0.1.0"
edition = "2021"
publish = false

[dependencies]
anyhow = "1"
clap = { version = "4", features = ["derive"] }
ctrlc = "3"
ico = "*"
image = { version = "0.25", default-features = false, features = ["png"] }
indicatif = "*"
owo-colors = "*"
resvg = "*"
serde = { version = "1", features = ["derive"] }
serde_json = "1"
