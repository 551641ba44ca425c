[package]
name = "rust-to-you"
version = "0.1.0"
edition = "2021"
publish = false

[dependencies]
chrono = "*"
clap = { version = "*", features = ["derive"] }
crossterm = "*"
ctrlc = "*"
git2 = { version = "*", default-features = false, features = ["https"] }
ratatui = "*"
reqwest = { version = "0.12", default-features = false, features = ["blocking", "json", "rustls-tls"] }
serde = { version = "*", features = ["derive"] }
tempfile = "*"
thiserror = "*"
tokei = "*"
