[package]
name = "browser_rpass"
version = "0.1.0"
edition = "2021"
publish = false

[dependencies]
rand = "0.8"
url = "2"
sublime_fuzzy = "0.7"
secrecy = "0.8"
serde = { version = "1", features = ["derive"] }
serde_json = "1"
chrono = { version = "0.4", default-features = false, features = ["serde", "clock", "std"] }
