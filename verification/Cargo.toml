[package]
name = "aurora-workspace-demo"
version = "0.1.0"
edition = "2021"
publish = false

[dependencies]
anyhow = "1"
ethabi = "=18.0.0"
ethereum-tx-sign = "=6.1.3"
hex = "=0.4.3"
tokio = { version = "1", features = ["full"] }
workspaces = "0.7"
