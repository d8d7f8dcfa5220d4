[package]
name = "monero_crawler_lib"
version = "0.1.0"
edition = "2021"
publish = false

[dependencies]
rand = "=0.10.3"
dashmap = "=6.2.1"
tokio = { version = "=1.54.1", features = ["full"] }
tokio-stream = "=0.1.19"
tokio-util = { version = "=0.7.20", features = ["codec"] }
futures = "=0.3.34"
reqwest = { version = "=0.13.5", default-features = false }
zeromq = "=0.7.0"
axum = "=0.8.9"
deadpool-diesel = { version = "=0.7.0", features = ["sqlite"] }
diesel = { version = "=2.3.14", features = ["sqlite"] }
diesel_migrations = "=2.3.2"
directories = "=6.0.0"
confy = "=2.0.0"
serde = { version = "=1.0.229", features = ["derive"] }
url = { version = "=2.5.8", features = ["serde"] }
tracing = "=0.1.44"
tracing-subscriber = "=0.3.23"
anyhow = "=1.0.104"
