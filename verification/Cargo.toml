[package]
name = "opengatellm"
version = "0.1.0"
edition = "2021"
publish = false

[dependencies]
reqwest = { version = "=0.12.28", default-features = false, features = ["json", "stream", "multipart", "rustls-tls"] }
serde = { version = "=1.0.229", features = ["derive"] }
serde_json = "=1.0.154"
url = "=2.5.8"
eventsource-stream = "=0.2.3"
futures-util = "=0.3.34"
thiserror = "=1.0.69"
