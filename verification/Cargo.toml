[package]
name = "caption_ingest"
version = "0.1.0"
edition = "2021"
publish = false

[dependencies]
html-escape = "=0.2.15"
roxmltree = "=0.18.1"
serde_json = "=1.0.154"
reqwest = "=0.11.27"
tokio = { version = "=1.54.1", features = ["full"] }
thiserror = "=1.0.69"
async-trait = "=0.1.92"
llm-chain = "=0.13.0"
qdrant-client = "=1.20.0"
rust-bert = "=0.21.0"
uuid = { version = "=1.29.0", features = ["v4"] }
