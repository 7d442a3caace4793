[package]
name = "baz_launcher"
version = "0.1.0"
edition = "2021"
publish = false

[dependencies]
gilrs = "0.11"
reqwest = { version = "0.12", default-features = false, features = ["json", "rustls-tls"] }
serde = { version = "1", features = ["derive"] }
serde_json = "1"
tiny_http = "0.12"
zip = { version = "2", default-features = false, features = ["deflate"] }
