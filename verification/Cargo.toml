[package]
name = "dilbert_feed"
version = "0.1.0"
edition = "2021"
publish = false

[dependencies]
select = "*"
rss = "*"
chrono = "*"
url = "*"
reqwest = { version = "*", default-features = false }
tokio = { version = "*", features = ["macros", "rt", "rt-multi-thread"] }
aws-config = "*"
aws-sdk-s3 = "*"
serde = { version = "*", features = ["derive"] }
serde_json = "*"
futures = "*"
