[package]
name = "ytmtui"
version = "0.1.0"
edition = "2021"
publish = false

[dependencies]
unicode-width = "0.2"
anyhow = "1"
async-trait = "0.1"
chrono = { version = "0.4", default-features = false, features = ["clock"] }
crossterm = "0.28"
dirs = "6"
image = { version = "0.25", default-features = false, features = ["png", "jpeg"] }
ratatui = "0.29"
rustfft = "6"
serde = { version = "1", features = ["derive"] }
serde_json = "1"
tempfile = "3"
tokio = { version = "1", features = ["rt-multi-thread", "macros", "sync", "time"] }
toml = "0.8"
