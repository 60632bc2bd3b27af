[package]
name = "texhub"
version = "0.1.0"
edition = "2021"
publish = false

[dependencies]
uuid = { version = "1", features = ["v4"] }
chrono = "0.4"
serde = { version = "1", features = ["derive"] }
serde_json = "1"
log = "0.4"
tokio = { version = "1", features = ["full"] }
redis = "*"
reqwest = { version = "0.12", features = ["json", "blocking"] }
actix-web = "4"
diesel = { version = "2", features = ["postgres"] }
futures-util = "0.3"
meilisearch-sdk = "*"
git2 = "*"
