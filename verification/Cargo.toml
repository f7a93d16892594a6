[package]
name = "gitlite"
version = "0.1.0"
edition = "2021"
publish = false

[dependencies]
anyhow = "1"
chrono = "0.4"
dirs = "5"
git2 = { version = "0.18", default-features = false }
serde = { version = "1", features = ["derive"] }
serde_json = "1"
