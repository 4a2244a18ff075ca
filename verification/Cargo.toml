[package]
name = "graph"
version = "0.1.0"
edition = "2021"
publish = false

[dependencies]
aws-config = "0.51"
aws-sdk-dynamodb = "0.21"
aws-sdk-dynamodbstreams = "0.21"
hyper = { version = "0.14", features = ["server", "http1", "tcp", "runtime"] }
juniper = "0.15"
juniper_hyper = "0.8"
log = "0.4"
pretty_env_logger = "0.4"
serde = { version = "1", features = ["derive"] }
serde_json = "1"
sled = "0.34"
tantivy = "0.18"
tokio = { version = "1", features = ["full"] }
