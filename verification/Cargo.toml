[package]
name = "lied"
version = "0.1.0"
edition = "2021"
publish = false

[dependencies]
async-trait = "0.1"
aws-config = { version = "1", default-features = false, features = ["behavior-version-latest", "rt-tokio"] }
aws-sdk-s3 = { version = "1", default-features = false, features = ["behavior-version-latest", "rt-tokio", "sigv4a"] }
axum = { version = "0.7", features = ["multipart", "macros"] }
bytes = "1"
chrono = { version = "0.4", features = ["serde"] }
dav-server = { version = "0.7", default-features = false }
futures-util = "0.3"
maud = "0.26"
metrics-exporter-prometheus = { version = "0.16", default-features = false }
serde = { version = "1", features = ["derive"] }
serde_json = "1"
sqlx = { version = "0.8", default-features = false, features = ["postgres", "runtime-tokio", "uuid", "chrono"] }
thiserror = "1"
tokio = { version = "1", features = ["macros", "rt-multi-thread", "time", "net"] }
tokio-util = { version = "0.7", features = ["io"] }
tower-http = { version = "0.6", features = ["request-id", "trace", "util"] }
tower-sessions = "0.13"
tracing = "0.1"
tracing-subscriber = { version = "0.3", features = ["env-filter", "json"] }
utoipa = { version = "5", features = ["uuid", "chrono"] }
utoipa-axum = "0.1"
utoipa-rapidoc = "5"
uuid = { version = "1", features = ["v7", "serde"] }
