[package]
name = "kleos"
version = "0.1.0"
edition = "2021"
publish = false

[dependencies]
uuid = { version = "1", features = ["v4", "serde"] }
chrono = { version = "0.4", features = ["serde"] }
serde = { version = "1", features = ["derive"] }
serde_json = "1"
thiserror = "1"
async-trait = "0.1"
anyhow = "1"
tokio = { version = "1", features = ["macros", "rt-multi-thread", "sync"] }
tracing = "0.1"
tracing-subscriber = { version = "0.3", features = ["fmt", "json"] }
aws-config = { version = "1", features = ["behavior-version-latest"] }
aws-sdk-kinesis = "1"
aws_lambda_events = { version = "0.15", default-features = false, features = ["apigw", "kinesis"] }
lambda_runtime = "0.13"
lambda_http = "0.13"
