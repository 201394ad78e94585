[package]
name = "bioma_tool"
version = "0.1.0"
edition = "2021"
publish = false

[dependencies]
serde = { version = "1", features = ["derive"] }
serde_json = "1"
uuid = { version = "1", features = ["v4", "serde"] }
url = "2"
base64 = "0.22"
rand = "0.8"
jsonrpc-core = "18"
schemars = "0.8"
tokio = { version = "1", features = ["rt-multi-thread", "macros", "sync", "io-util", "io-std", "process", "time", "net", "fs"] }
anyhow = "1"
thiserror = "1"
bytes = "1"
futures-util = "0.3"
hyper = { version = "1", features = ["server", "http1"] }
hyper-util = { version = "0.1", features = ["tokio", "server", "server-auto", "http1"] }
http-body-util = "0.1"
tokio-stream = "0.1"
reqwest = { version = "0.12", default-features = false, features = ["stream"] }
tokio-tungstenite = "0.24"
