[package]
name = "madsim-aws-sdk-s3"
version = "0.1.0"
edition = "2021"
publish = false

[dependencies]
aws-smithy-runtime-api = { version = "1", features = ["client"] }
aws-smithy-types = "1"
aws-types = "1"
madsim = "0.2"
tracing = "0.1"
