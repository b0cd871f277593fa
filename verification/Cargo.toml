[package]
name = "citationberg"
version = "0.1.0"
edition = "2021"
publish = false

[dependencies]
quick-xml = { version = "0.28", features = ["serialize", "overlapped-lists"] }
serde = { version = "1", features = ["derive"] }
