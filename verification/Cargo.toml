[package]
name = "recaptcha_verify"
version = "0.1.0"
edition = "2021"
publish = false

[dependencies]
chrono = { version = "0.4", default-features = false, features = ["std"] }
reqwest = { version = "0.11", default-features = false }
rocket = { version = "0.5", default-features = false }
rocket-client-addr = "0.5"
serde = { version = "1", features = ["derive"] }
serde_json = "1"
validators = { version = "0.25", default-features = false, features = ["derive", "base64_url", "regex"] }
