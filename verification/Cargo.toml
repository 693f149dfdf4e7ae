[package]
name = "oxid_roblox"
version = "0.1.0"
edition = "2021"
publish = false

[dependencies]
async-trait = "0.1"
lazy_static = "1"
reqwest = { version = "0.11", features = ["json"] }
serde = { version = "1", features = ["derive"] }
serde_json = "1"
