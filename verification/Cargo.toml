[package]
name = "projwarrior"
version = "0.1.0"
edition = "2021"
publish = false

[dependencies]
anyhow = "=1.0.104"
chrono = { version = "=0.4.45", features = ["serde"] }
clap = { version = "=4.6.7", features = ["derive"] }
comfy-table = "=8.0.1"
confy = "=2.0.0"
dirs = "=7.0.0"
futures = "=0.3.34"
rusqlite = "=0.39.0"
serde = { version = "=1.0.229", features = ["derive"] }
serde_json = "=1.0.154"
task-hookrs = "=0.9.0"
taskchampion = { version = "=3.1.0", default-features = false, features = ["storage-sqlite", "bundled", "server-sync", "tls-webpki-roots"] }
uuid = { version = "=1.29.0", features = ["v4", "serde"] }
