[package]
name = "mlb_plays"
version = "0.1.0"
edition = "2021"
publish = false

[dependencies]
glob = "0.3"
indicatif = "0.17"
reqwest = { version = "0.12", features = ["json"] }
serde = { version = "1", features = ["derive"] }
serde_json = "1"
tokio = { version = "1", features = ["macros", "rt-multi-thread"] }
