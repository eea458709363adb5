[package]
name = "tranquility"
version = "0.1.0"
edition = "2021"
publish = false

[dependencies]
serde_json = "=1.0.154"
reqwest = { version = "=0.11.27", default-features = false, features = ["json"] }
uuid = "=1.29.0"
chrono = "0.4"
sqlx = { version = "0.7", default-features = false, features = ["postgres", "uuid", "chrono", "json"] }
