[package]
name = "chat_relay"
version = "0.1.0"
edition = "2021"
publish = false

[dependencies]
anyhow = "1"
async-openai = { version = "=0.42.1", default-features = false, features = ["rustls", "chat-completion"] }
serenity = "=0.11.7"
tokio = { version = "1", features = ["macros", "rt-multi-thread"] }
tracing = "0.1"
