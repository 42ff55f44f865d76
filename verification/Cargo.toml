[package]
name = "coinbase_v3"
version = "0.1.0"
edition = "2021"
publish = false

[dependencies]
serde_json = "*"
url = "*"
uritemplate = "*"
chrono = { version = "*", features = ["serde"] }
uuid = { version = "*", features = ["v4", "serde"] }
bigdecimal = { version = "*", features = ["serde"] }
oauth2 = "4"
reqwest = { version = "*", default-features = false, features = ["json"] }
futures = "*"
async-stream = "*"
serde = { version = "*", features = ["derive"] }
dotenvy = "*"
