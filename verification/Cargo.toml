[package]
name = "http_file_server"
version = "0.1.0"
edition = "2021"
publish = false

[dependencies]
anyhow = "*"
axum = "*"
bytes = "*"
clap = { version = "*", features = ["derive"] }
colored = "*"
futures = "*"
mime_guess = "*"
moka = { version = "*", features = ["sync", "future"] }
percent-encoding = "*"
serde = { version = "*", features = ["derive"] }
serde_json = "*"
time = { version = "*", features = ["formatting", "local-offset"] }
tokio = { version = "*", features = ["full"] }
tokio-util = { version = "*", features = ["io"] }
tower-http = { version = "*", features = ["cors"] }
tracing = "*"
tracing-subscriber = { version = "*", features = ["env-filter"] }
