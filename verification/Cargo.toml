[package]
name = "bundle_pipeline"
version = "0.1.0"
edition = "2021"
publish = false

[dependencies]
serde_json = "*"
tokio = { version = "*", features = ["full"] }
lambda_http = "*"
aws-config = "*"
aws-sdk-s3 = "*"
