[package]
name = "snipnote"
version = "0.1.0"
edition = "2021"
publish = false

[dependencies]
arboard = { version = "3", default-features = false }
crossterm = "0.25"
fuzzy-matcher = "0.3"
serde = { version = "1", features = ["derive"] }
serde_json = "1"
tui = "0.19"
unicode-width = "0.1"
walkdir = "2"
