[package]
name = "ingest_pipeline"
version = "0.1.0"
edition = "2021"
publish = false

[dependencies]
anyhow = "1"
axum = "0.7"
bson = "2"
http = "1"
integrationos-domain = "4"
moka = { version = "0.12", features = ["future"] }
mongodb = "2"
reqwest = { version = "0.12", default-features = false }
segment = "0.2"
serde = { version = "1", features = ["derive"] }
tokio = { version = "1", features = ["macros", "net", "rt-multi-thread", "sync", "time"] }
tracing = "0.1"
