[package]
name = "chat_stream_core"
version = "0.1.0"
edition = "2021"
publish = false

[dependencies]
serde = { version = "*", features = ["derive"] }
serde_json = "*"
tokio = { version = "*", features = ["sync", "rt-multi-thread", "macros"] }
tokio-stream = "*"
reqwest = { version = "*", default-features = false, features = ["json", "stream", "rustls-tls"] }
llama-cpp-2 = "*"
dirs = "*"
