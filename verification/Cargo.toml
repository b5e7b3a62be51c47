[package]
name = "layered-config"
version = "0.1.0"
edition = "2021"
publish = false

[dependencies]
aws-sdk-s3 = { version = "*", default-features = false }
aws-smithy-checksums = "*"
aws-smithy-http = "0.55"
aws-smithy-types = "*"
aws-smithy-xml = "*"
aws-types = "*"
bytes = "1"
futures-util = "0.3"
hyper = "0.14"
pin-project-lite = "0.2"
tower = { version = "0.4", features = ["util"] }
tracing = "0.1"
