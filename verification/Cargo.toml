[package]
name = "soonscan"
version = "0.1.0"
edition = "2021"
publish = false

[dependencies]
crossterm = "*"
reqwest = { version = "*", default-features = false, features = ["json", "rustls-tls"] }
serde_json = "*"
tokio = { version = "*", features = ["macros", "rt-multi-thread", "sync"] }
