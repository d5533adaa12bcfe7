[package]
name = "prune-backup"
version = "0.1.3"
edition = "2021"
publish = false

[dependencies]
chrono = "0.4"
shell-escape = "0.1"
anyhow = "1"
clap = { version = "4", features = ["derive"] }
serde = { version = "1", features = ["derive"] }
toml = "0.8"
trash = "5"

[dev-dependencies]
