[package]
name = "recording_analyzer"
version = "0.1.0"
edition = "2021"
publish = false

[dependencies]
percent-encoding = "2"
serde = { version = "1", features = ["derive"] }
serde_json = "1"
reqwest = { version = "0.12", default-features = false, features = ["json", "rustls-tls"] }
tokio = { version = "1", features = ["macros", "rt-multi-thread", "time"] }
futures = "0.3"
jsonwebtoken = "9"
lambda_runtime = "*"
aws_lambda_events = { version = "*", default-features = false, features = ["lambda_function_urls"] }
tracing = "0.1"
tracing-subscriber = { version = "0.3", features = ["env-filter"] }
