[package]
name = "bootstrap_monitor"
version = "0.1.0"
edition = "2021"
publish = false

[dependencies]
clap = "2.33"
reqwest = { version = "0.11", default-features = false, features = ["blocking"] }
serde_json = "1.0"
url = "2"
