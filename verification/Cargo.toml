[package]
name = "libecs"
version = "0.1.0"
edition = "2021"
publish = false

[dependencies]
async-trait = "*"
aws-config = "*"
aws-sdk-ecs = "*"
aws-sdk-iam = "*"
aws-sdk-sts = "*"
clap = { version = "*", features = ["derive"] }
color-eyre = "*"
colored = "*"
crossterm = { version = "0.28", features = ["event-stream"] }
futures = "*"
ratatui = "0.29"
tokio = { version = "*", features = ["full"] }
version-compare = "*"
