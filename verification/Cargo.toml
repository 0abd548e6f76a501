[package]
name = "supportsystem"
version = "0.1.0"
edition = "2021"
publish = false

[dependencies]
anyhow = "*"
async-trait = "*"
axum = { version = "0.8", features = ["multipart"] }
chrono = { version = "*", features = ["serde"] }
futures-util = "*"
garde = { version = "*", features = ["derive"] }
indexmap = "*"
reqwest = { version = "*", default-features = false, features = ["json"] }
rust-s3 = "*"
serde = { version = "*", features = ["derive"] }
serde_json = "*"
sqlx = { version = "*", default-features = false, features = ["postgres", "uuid", "chrono", "json", "runtime-tokio"] }
tokio = { version = "*", features = ["io-util"] }
tokio-util = { version = "*", features = ["io"] }
tracing = "*"
utoipa = { version = "5", features = ["uuid", "chrono"] }
utoipa-axum = "0.2"
uuid = { version = "*", features = ["v4", "serde"] }
