[package]
name = "lambda_workflow"
version = "0.1.0"
edition = "2021"
publish = false

[dependencies]
async-trait = "*"
aws_lambda_events = { version = "*", default-features = false, features = ["sqs"] }
aws-sdk-dynamodb = { version = "*", default-features = false, features = ["behavior-version-latest"] }
aws-sdk-sqs = { version = "*", default-features = false, features = ["behavior-version-latest"] }
aws-smithy-mocks = "*"
aws-types = "*"
futures = "*"
lambda_runtime = "*"
serde = { version = "*", features = ["derive"] }
serde_derive = "*"
serde_dynamo = { version = "*", features = ["aws-sdk-dynamodb+1"] }
serde_json = "*"
tokio = { version = "*", features = ["macros", "rt-multi-thread", "sync"] }
