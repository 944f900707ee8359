[package]
name = "signal_relay"
version = "0.1.0"
edition = "2021"
publish = false

[dependencies]
json = "=0.12.4"
futures-channel = "=0.3.34"
futures-util = { version = "=0.3.34", features = ["sink"] }
tokio = { version = "=1.54.1", features = ["macros", "net", "rt-multi-thread"] }
tokio-tungstenite = "=0.30.0"
rocket = { version = "0.5", features = ["json"] }
rocket_cors = "0.6"
serde = "=1.0.229"
serde_derive = "=1.0.229"
serde_json = "=1.0.154"
