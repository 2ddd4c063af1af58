[package]
name = "chromedriver_setup"
version = "0.1.0"
edition = "2021"
publish = false

[dependencies]
serde_json = "1"
reqwest = { version = "0.12", default-features = false }
tokio = { version = "1", default-features = false, features = ["rt", "fs", "process"] }
zip = { version = "2", default-features = false, features = ["deflate"] }
