[package]
name = "candy_ass"
version = "0.1.0"
edition = "2021"
publish = false

[dependencies]
dashmap = "*"
reqwest = { version = "*", default-features = false, features = ["blocking", "json"] }
serde = "*"
serde_json = "*"
