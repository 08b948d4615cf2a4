[package]
name = "tix"
version = "0.1.0"
edition = "2021"
publish = false

[dependencies]
anyhow = "=1.0.104"
async-std = { version = "=1.13.2", features = ["attributes"] }
clap = { version = "=4.6.7", features = ["derive"] }
config = "=0.15.27"
git2 = { version = "=0.21.0", default-features = false }
gitlab = "=0.1904.0"
inquire = "=0.9.4"
octocrab = "=0.41.2"
serde = { version = "=1.0.229", features = ["derive"] }
shellexpand = "=3.1.2"
