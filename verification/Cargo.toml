[package]
name = "noblock_input"
version = "0.1.0"
edition = "2021"
publish = false

[dependencies]
anyhow = "1"
ctrlc = "3"
log = "0.4"
serde = { version = "1", features = ["derive"] }
simplelog = "0.12"
time = "0.3"
toml = "0.8"
