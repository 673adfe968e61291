[package]
name = "oneil"
version = "0.16.0"
edition = "2021"
publish = false

[dependencies]
semver = "=1.0.28"
serde = { version = "=1.0.229", features = ["derive"] }
serde_json = "=1.0.154"
xxhash-rust = { version = "=0.8.19", features = ["xxh3"] }
indexmap = "=2.14.2"

[dev-dependencies]
nom = "=8.0.0"
