[package]
name = "orchestrator"
version = "0.1.0"
edition = "2021"
publish = false

[dependencies]
async-graphql = { version = "5", default-features = false, features = ["uuid", "time"] }
async-graphql-axum = "5"
axum = "0.6"
tokio = { version = "1", features = ["full"] }
tokio-stream = { version = "0.1", features = ["sync"] }
futures = "0.3"
stream-cancel = "0.8"
sea-orm = { version = "0.11", default-features = false, features = ["sqlx-sqlite", "runtime-tokio-rustls", "macros", "with-uuid", "with-time"] }
sea-orm-migration = { version = "0.11", default-features = false, features = ["sqlx-sqlite", "runtime-tokio-rustls"] }
rumqttc = { version = "0.20", default-features = false }
rumqttd = { version = "0.12", default-features = false }
serde = { version = "1", features = ["derive"] }
serde_json = "1"
serde_repr = "0.1"
time = { version = "0.3", features = ["serde", "formatting", "parsing", "macros"] }
uuid = { version = "1", features = ["v4", "serde"] }
tracing = "0.1"
tracing-subscriber = "0.3"
dotenv = "0.15"
tower-http = { version = "0.4", features = ["cors"] }
async-trait = "0.1"
