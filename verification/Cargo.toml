[package]
name = "mail_oauth"
version = "0.1.0"
edition = "2021"
publish = false

[dependencies]
url = "2"
oauth2 = { version = "5", default-features = false, features = ["reqwest"] }
reqwest = { version = "0.12", default-features = false, features = ["json"] }
serde = { version = "1", features = ["derive"] }
serde_json = "1"
tiny_http = "0.12"
rusqlite = "*"
tokio = { version = "1", features = ["time", "rt", "macros"] }
