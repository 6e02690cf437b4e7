[package]
name = "gemini_client"
version = "0.1.0"
edition = "2021"
publish = false

[dependencies]
serde_json = "=1.0.151"
chrono = "=0.4.45"
dotenv = "=0.15.0"
reqwest = { version = "=0.13.5", default-features = false, features = ["json", "query"] }
