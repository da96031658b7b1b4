[package]
name = "one_engine"
version = "0.1.0"
edition = "2021"
publish = false

[dependencies]
anyhow = "=1.0.104"
axum = "=0.7.9"
chrono = "=0.4.45"
futures-core = "=0.3.34"
regex = "=1.13.1"
reqwest = { version = "=0.12.28", default-features = false, features = ["json", "rustls-tls"] }
serde = { version = "=1.0.229", features = ["derive"] }
serde_json = "=1.0.154"
serde_yaml = "=0.9.34"
sha2 = "=0.10.9"
shell-escape = "=0.1.5"
tokio = { version = "=1.54.1", features = ["full"] }
tower-http = { version = "=0.6.11", features = ["fs"] }
tokio-stream = { version = "=0.1.19", features = ["sync", "time"] }
utoipa = "4"
utoipa-swagger-ui = { version = "7", features = ["axum", "vendored"] }
uuid = { version = "=1.29.0", features = ["v4"] }
walkdir = "=2.5.0"
