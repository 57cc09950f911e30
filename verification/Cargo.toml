[package]
name = "cloudflare"
version = "0.1.0"
edition = "2021"
publish = false

[dependencies]
url = "*"
serde = "*"
serde_derive = "*"
serde_json = "*"
reqwest = { version = "*", default-features = false, features = ["blocking", "json"] }
