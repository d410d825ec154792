[package]
name = "opfyx"
version = "0.1.0"
edition = "2021"
publish = false

[dependencies]
anyhow = "1"
aws-config = "1"
aws-sdk-ecs = "1"
clap = { version = "4", features = ["derive"] }
comfy-table = "7"
futures = "0.3"
tokio = { version = "1", features = ["full"] }
