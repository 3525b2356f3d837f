[package]
name = "biliticket"
version = "0.1.0"
edition = "2021"
publish = false

[dependencies]
base64 = "0.21"
rand = "0.8"
serde = { version = "1", features = ["derive"] }
serde_json = "1"
reqwest = { version = "0.12", default-features = false, features = ["json", "cookies"] }
tokio = { version = "1", features = ["rt-multi-thread"] }
log = "0.4"
