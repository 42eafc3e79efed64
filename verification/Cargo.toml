[package]
name = "olaf2"
version = "0.1.0"
edition = "2021"
publish = false

[dependencies]
url = "2"
oauth2 = { version = "4", default-features = false }
reqwest = { version = "0.11", default-features = false, features = ["blocking", "json", "rustls-tls"] }
actix-web = { version = "4", default-features = false, features = ["macros"] }
serde = { version = "1", features = ["derive"] }
serde_json = "1"
toml = "*"
open = "*"
log = "0.4"
env_logger = "*"
