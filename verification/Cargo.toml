[package]
name = "snowplow_tracker"
version = "0.1.0"
edition = "2021"
publish = false

[dependencies]
futures = "0.3"
reqwest = { version = "0.11", default-features = false, features = ["stream"] }
serde = "1"
serde_json = "1"
url = "2"
