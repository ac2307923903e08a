[package]
name = "data_processor"
version = "0.1.0"
edition = "2021"
publish = false

[dependencies]
actix-web = "*"
chrono = "*"
deadpool = "*"
deadpool-redis = { version = "*", features = ["cluster"] }
maxminddb = "*"
once_cell = "*"
redis = "*"
serde = { version = "*", features = ["derive"] }
serde_json = "*"
serde_with = "*"
validator = { version = "*", features = ["derive"] }
