[package]
name = "rss_client"
version = "0.1.0"
edition = "2021"
publish = false

[dependencies]
chrono = "0.4"
dirs = "*"
futures = "0.3"
open = "*"
ratatui = "*"
ratatui-textarea = "*"
reqwest = "*"
serde = { version = "1", features = ["derive"] }
serde_json = "1"
serde-xml-rs = "*"
tokio = { version = "1", features = ["full"] }
