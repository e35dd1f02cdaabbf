[package]
name = "crawlberg"
version = "0.1.0"
edition = "2021"
publish = false

[dependencies]
reqwest = { version = "0.12", default-features = false }
rustls = { version = "0.23", default-features = false, features = ["ring", "std", "tls12", "logging"] }
webpki-roots = "1"
url = "2"
tokio = { version = "1", features = ["time"] }
tower = "0.5"
