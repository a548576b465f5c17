[package]
name = "actix-request-hook"
version = "0.1.0"
edition = "2021"
publish = false

[dependencies]
actix-http = "3"
actix-web = { version = "4", default-features = false }
futures-util = "0.3"
regex = "1"
uuid = { version = "1", features = ["v4"] }

[dev-dependencies]
serde_json = "1"
