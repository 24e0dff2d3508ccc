[package]
name = "nightly_commit"
version = "0.1.0"
edition = "2021"
publish = false

[dependencies]
anyhow = "=1.0.104"
dotenv = "=0.15.0"
handlebars = "=4.5.0"
reqwest = { version = "=0.11.27", features = ["blocking", "json"] }
serde_json = "=1.0.154"
toml = "=0.8.23"
