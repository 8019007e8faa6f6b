[package]
name = "ses_workflow"
version = "0.1.0"
edition = "2021"
publish = false

[dependencies]
anyhow = "*"
aws-sdk-sesv2 = { version = "*", default-features = false }
tokio = { version = "*", default-features = false, features = ["rt"] }
