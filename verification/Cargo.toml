[package]
name = "lemnux"
version = "0.1.0"
edition = "2021"
publish = false

[dependencies]
chrono = "0.4"
confy = "0.6"
lemmy_api_common = { version = "0.19", default-features = false }
reqwest = { version = "0.12", default-features = false, features = ["blocking", "json", "rustls-tls"] }
serde = { version = "1", features = ["derive"] }
serde_derive = "1"
