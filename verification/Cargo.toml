[package]
name = "feedtui"
version = "0.1.0"
edition = "2021"
publish = false

[dependencies]
regex = "*"
feed-rs = "*"
html2text = "*"
ratatui = "*"
tokio = { version = "*", features = ["rt-multi-thread", "macros"] }
reqwest = { version = "*", default-features = false, features = ["rustls-tls"] }
clap = { version = "*", features = ["derive"] }
serde = { version = "*", features = ["derive"] }
toml = "*"
