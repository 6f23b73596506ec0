[package]
name = "cosmic"
version = "0.1.0"
edition = "2021"
publish = false

[dependencies]
semver = "1"
convert_case = "0.6"
regex = "1"
serde = { version = "1", features = ["derive"] }
serde_json = "1"
dirs = "4"
