[package]
name = "dev-cli"
version = "0.1.0"
edition = "2021"
publish = false

[dependencies]
bollard = "0.18"
clap = { version = "4", features = ["derive"] }
dirs = "5"
serde = { version = "1", features = ["derive"] }
serde_yaml = "0.9"
subprocess = "0.2"
sysexits = "*"
tokio = { version = "1", features = ["macros", "rt-multi-thread"] }
