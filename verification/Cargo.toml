[package]
name = "vfb_catalog"
version = "0.1.0"
edition = "2021"
publish = false

[dependencies]
axum = "0.7"
futures-util = "0.3"
log = "0.4"
meilisearch-sdk = "*"
mongodb = "3"
serde = { version = "1", features = ["derive"] }
serde_derive = "1"
serde_json = "1"
simple-logging = "2"
tokio = { version = "1", features = ["macros", "net", "rt-multi-thread"] }
tower-http = { version = "*", features = ["fs"] }
