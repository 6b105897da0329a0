[package]
name = "aws_manager"
version = "0.1.0"
edition = "2021"
publish = false

[dependencies]
aws-sdk-cloudwatch = { version = "*", default-features = false }
aws-sdk-cloudwatchlogs = { version = "*", default-features = false }
aws-smithy-runtime-api = "*"
aws-types = "*"
log = "*"
serde = { version = "*", features = ["derive"] }
serde_json = "*"
tokio = { version = "*", features = ["time"] }
