[package]
name = "argus"
version = "0.1.0"
edition = "2021"
publish = false

[dependencies]
chrono = { version = "0.4", features = ["serde"] }
serde = { version = "1", features = ["derive"] }
serde_json = "1"
reqwest = { version = "0.12", default-features = false, features = ["json", "rustls-tls"] }
tokio = { version = "1", features = ["full"] }
crossterm = "0.27"
ratatui = "0.26"
thiserror = "1"
async-trait = "0.1"
dirs = "5"
config = { version = "0.14", default-features = false, features = ["toml"] }
