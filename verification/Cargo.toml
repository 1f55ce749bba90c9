[package]
name = "orso"
version = "0.1.0"
edition = "2021"
publish = false

[dependencies]
lz4_flex = "*"
integer-encoding = "*"
rayon = "1"
anyhow = "1"
serde = { version = "1", features = ["derive"] }
serde_json = "1"
chrono = { version = "0.4", features = ["serde"] }
uuid = { version = "1", features = ["v4", "serde"] }
tokio = { version = "1", features = ["rt", "macros"] }
tokio-postgres = "0.7"
deadpool-postgres = "*"
libsql = "*"
tracing = "0.1"
async-trait = "0.1"
thiserror = "1"

[dev-dependencies]
rand = "0.8"
