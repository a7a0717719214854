[package]
name = "tika_client"
version = "0.1.0"
edition = "2021"
publish = false

[dependencies]
serde_json = "1"
mime = "0.3"
url = "2"
tempdir = "0.3"
tokio = { version = "1", features = ["fs", "rt-multi-thread", "macros"] }
reqwest = { version = "0.12", default-features = false }
