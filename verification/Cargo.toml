[package]
name = "quorp_tui"
version = "0.1.0"
edition = "2021"
publish = false

[dependencies]
serde = { version = "=1.0.229", features = ["derive"] }
serde_json = "=1.0.154"
font8x8 = "=0.3.1"
image = { version = "=0.25.10", default-features = false }
crossterm = "=0.28.1"
syntect = { version = "5", default-features = false, features = ["default-syntaxes", "default-themes", "regex-fancy", "parsing"] }
