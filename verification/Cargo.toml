[package]
name = "oauth_login"
version = "0.1.0"
edition = "2021"
publish = false

[dependencies]
oauth2 = "4.4"
url = "2"
uuid = { version = "1", features = ["v4"] }
chrono = "0.4"
actix-web = "4"
redis = { version = "*", features = ["tokio-comp"] }
reqwest = { version = "0.11", features = ["json"] }
serde = { version = "1", features = ["derive"] }
log = "0.4"
