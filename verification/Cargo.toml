[package]
name = "qp_analyzer"
version = "0.1.0"
edition = "2021"
publish = false

[dependencies]
apollo-compiler = "*"
apollo-federation = "*"
anyhow = "*"
clap = { version = "*", features = ["derive"] }
serde = { version = "*", features = ["derive"] }
serde_json = "*"
tracing-subscriber = { version = "*", features = ["env-filter"] }
