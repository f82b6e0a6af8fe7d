[package]
name = "sylled"
version = "0.1.0"
edition = "2021"
publish = false

[dependencies]
anyhow = "=1.0.104"
async-graphql = { version = "=5.0.10", features = ["uuid", "dataloader"] }
async-graphql-axum = "=5.0.10"
async-trait = "=0.1.92"
axum = "=0.6.20"
envy = "=0.4.2"
hyper = { version = "=0.14.32", features = ["server"] }
once_cell = "=1.21.4"
scylla = "=0.9.1"
serde = { version = "=1.0.229", features = ["derive"] }
serde_json = "=1.0.154"
tokio = { version = "=1.54.1", features = ["full"] }
tower-http = { version = "=0.4.4", features = ["trace"] }
tracing = "=0.1.44"
tracing-subscriber = { version = "=0.3.23", features = ["env-filter"] }
uuid = { version = "=1.29.1", features = ["v4", "serde"] }
