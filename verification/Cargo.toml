[package]
name = "makai"
version = "0.1.0"
edition = "2021"
publish = false

[dependencies]
anyhow = "1"
async-trait = "0.1"
chrono = { version = "0.4", features = ["serde"] }
ctrlc = "3"
dotenvy = "0.15"
futures = "0.3"
llm = { version = "*", default-features = false, features = ["openai"] }
rand = "0.9"
serde = { version = "1", features = ["derive"] }
serde_json = "1"
serenity = { version = "0.12", default-features = false, features = ["builder", "chrono", "client", "gateway", "http", "model", "rustls_backend"] }
tokio = { version = "1", features = ["fs", "macros", "rt-multi-thread", "sync", "time"] }
tracing = "0.1"
tracing-subscriber = { version = "0.3", features = ["env-filter"] }
