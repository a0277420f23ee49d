[package]
name = "veritas"
version = "0.1.0"
edition = "2021"
publish = false

[dependencies]
anyhow = "1"
camino = { version = "=1.2.6", features = ["serde1"] }
clap = { version = "4", features = ["derive"] }
serde = { version = "1", features = ["derive"] }
serde_json = { version = "=1.0.154", features = ["preserve_order"] }
toml = "0.8"
tracing = "0.1"
tracing-subscriber = { version = "0.3", features = ["env-filter"] }
tree-sitter = "=0.25.10"
tree-sitter-go = "=0.23.4"
walkdir = "2"
