[package]
name = "cargo_caw_publish"
version = "0.1.0"
edition = "2021"
publish = false

[dependencies]
anyhow = "=1.0.104"
clap = { version = "=4.5.61", features = ["derive"] }
log = "=0.4.34"
log4rs = "=1.4.0"
reqwest = { version = "=0.12.28", default-features = false, features = ["blocking"] }
serde_json = "=1.0.151"
sha256 = "=1.6.0"
toml = "=0.8.23"
