[package]
name = "linear_tui"
version = "0.1.0"
edition = "2021"
publish = false

[dependencies]
anyhow = "*"
base64 = "*"
crossterm = "*"
dirs = "*"
open = "*"
rand = "*"
ratatui = "*"
reqwest = { version = "*", features = ["blocking", "json"] }
serde = { version = "*", features = ["derive"] }
serde_json = "*"
sha2 = "*"
toml = "*"
url = "*"
