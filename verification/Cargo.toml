[package]
name = "open_ai_sdk"
version = "0.1.0"
edition = "2021"
publish = false

[dependencies]
bytes = "1"
futures-core = "0.3"
futures-util = "0.3"
reqwest = { version = "0.12", default-features = false, features = ["json", "stream", "multipart"] }
schemars = "1"
serde = { version = "1", features = ["derive"] }
serde_json = "1"
thiserror = "2"
tokio = { version = "1", features = ["fs"] }
