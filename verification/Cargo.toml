[package]
name = "nyacat"
version = "0.1.0"
edition = "2021"
publish = false

[dependencies]
regex = "=1.13.1"
serde = { version = "=1.0.229", features = ["derive"] }
serde_with = "=3.24.0"
anyhow = "=1.0.104"
kovi = "=0.12.7"
kovi-plugin-expand-napcat = "=0.4.0"
async-openai = "=0.29.6"
