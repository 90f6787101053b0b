[package]
name = "steelwool"
version = "0.1.0"
edition = "2021"
publish = false

[dependencies]
serde_json = "=1.0.151"
futures = "=0.3.34"
ollama-rs = { version = "=0.3.6", features = ["stream"] }
async-openai = { version = "=0.42.1", features = ["chat-completion"] }
