[package]
name = "gh_client"
version = "0.1.0"
edition = "2021"
publish = false

[dependencies]
url = "2"
base64 = "0.22"
chrono = "0.4"
serde_json = "1"
reqwest = { version = "0.12", default-features = false, features = ["blocking"] }
