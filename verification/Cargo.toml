[package]
name = "grove_core"
version = "0.1.0"
edition = "2021"
publish = false

[dependencies]
anyhow = "1"
camino = "1"
chrono = "0.4"
ctrlc = "3"
glob = "0.3"
regex = "1"
rusqlite = "*"
serde = { version = "1", features = ["derive"] }
serde_json = "1"

[dev-dependencies]
tempfile = "3"
