[package]
name = "booknet"
version = "0.1.0"
edition = "2021"
publish = false

[dependencies]
tokio = { version = "=1.53.2", features = ["macros", "rt-multi-thread", "time"] }
axum = "=0.8.9"
mongodb = "=3.9.1"
neo4rs = "=0.8.0"
bb8 = "=0.9.1"
bb8-redis = "=0.26.0"
serde = { version = "=1.0.229", features = ["derive"] }
serde_json = "=1.0.151"
anyhow = "=1.0.104"
futures = "=0.3.34"
dotenvy = "=0.15.7"
