[package]
name = "aur_updater"
version = "0.1.0"
edition = "2021"
publish = false

[dependencies]
regex = "1"
srcinfo = "*"
serde = { version = "1", features = ["derive"] }
serde_json = "1"
basic-toml = "*"
clap = { version = "4", features = ["derive"] }
attohttpc = { version = "*", default-features = false, features = ["json"] }
anyhow = "1"
