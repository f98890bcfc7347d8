[package]
name = "sanora"
version = "0.1.0"
edition = "2021"
publish = false

[dependencies]
sessionless = "*"
serde = { version = "*", features = ["derive"] }
serde_json = "*"
reqwest = { version = "*", default-features = false, features = ["json"] }
