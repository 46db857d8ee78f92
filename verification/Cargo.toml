[package]
name = "agent-pair"
version = "0.1.0"
edition = "2021"
publish = false

[dependencies]
bytes = "1"
clap = { version = "4", features = ["derive"] }
futures = "0.3"
postcard = { version = "1", features = ["use-std"] }
socket2 = { version = "*", features = ["all"] }
thiserror = "2"
tokio = { version = "1", features = ["full"] }
tokio-tungstenite = "*"
tokio-util = { version = "0.7", features = ["io"] }
tokio-yamux = "*"
tracing = "0.1"
tracing-subscriber = { version = "0.3", features = ["env-filter"] }

[dev-dependencies]
serde = "1"
