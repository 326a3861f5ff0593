[package]
name = "airdrop_checker"
version = "0.1.0"
edition = "2021"
publish = false

[dependencies]
serde_json = "1"
serde = { version = "1", features = ["derive"] }
reqwest = { version = "*", default-features = false }
rocket = { version = "0.5", features = ["json"] }
dotenv = "0.15"
