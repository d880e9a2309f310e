[package]
name = "calcver"
version = "0.1.0"
edition = "2021"
publish = false

[dependencies]
regex = "1"
semver = "1"
git2 = { version = "*", default-features = false }
clap = "2"
serde = { version = "1", features = ["derive"] }
serde_derive = "1"
serde_yaml = "*"
toml = "0.5"
