[package]
name = "domo"
version = "0.1.0"
edition = "2021"
publish = false

[dependencies]
csv = "1"
reqwest = { version = "0.12", default-features = false, features = ["blocking", "rustls-tls"] }
serde = { version = "1", features = ["derive"] }
serde_json = "1"
surf = { version = "2", default-features = false, features = ["h1-client-rustls", "encoding"] }
