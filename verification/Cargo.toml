[package]
name = "xcys"
version = "0.1.0"
edition = "2021"
publish = false

[dependencies]
async-process = "=1.8.1"
crossterm = "=0.26.1"
futures = "=0.3.34"
octocrab = "=0.47.1"
serde = { version = "=1.0.229", features = ["derive"] }
tokio = { version = "=1.54.1", features = ["macros", "rt-multi-thread"] }
toml = "=1.1.8"
whoami = "=1.6.1"
