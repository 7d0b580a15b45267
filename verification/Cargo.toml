[package]
name = "lake"
version = "0.1.0"
edition = "2021"
publish = false

[dependencies]
aws-config = { version = "*", features = ["behavior-version-latest"] }
aws-credential-types = "*"
aws-sdk-s3 = "*"
axum = "0.8"
rusqlite = { version = "*", features = ["bundled"] }
tokio = { version = "1", features = ["full"] }
uuid = { version = "1", features = ["v4"] }
