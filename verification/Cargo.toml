[package]
name = "hugo_server"
version = "0.1.0"
edition = "2021"
publish = false

[dependencies]
anyhow = "=1.0.104"
axum = { version = "=0.8.9", features = ["multipart"] }
axum-extra = { version = "=0.12.6", features = ["file-stream"] }
axum-server = { version = "=0.8.0", features = ["tls-rustls"] }
clap = { version = "=4.6.7", features = ["derive"] }
clap_complete = "=4.6.11"
clap_complete_nushell = "=4.6.2"
clap-verbosity-flag = "=3.0.4"
futures-util = "=0.3.34"
jiff = { version = "=0.2.39", features = ["serde"] }
mimalloc = "*"
once_cell = "=1.21.4"
reqwest = { version = "=0.12.28", default-features = false, features = ["json", "rustls-tls"] }
sanitize-filename = "=0.6.0"
serde = { version = "=1.0.229", features = ["derive"] }
simdutf8 = "=0.1.5"
sonic-rs = "=0.5.10"
supports-color = "=3.0.2"
tokio = { version = "=1.54.1", features = ["full"] }
tokio-util = { version = "=0.7.20", features = ["io"] }
toml = "=1.1.8"
tower = { version = "=0.5.3", features = ["full"] }
tower-http = { version = "=0.7.1", features = ["fs", "trace", "compression-gzip", "compression-br", "decompression-gzip", "decompression-br", "catch-panic", "request-id", "sensitive-headers", "timeout", "util", "csrf", "on-early-drop"] }
tracing = "=0.1.44"
tracing-appender = "=0.2.5"
tracing-subscriber = { version = "=0.3.23", features = ["env-filter", "json"] }
url = { version = "=2.5.8", features = ["serde"] }
uuid = { version = "=1.29.0", features = ["v4"] }
walkdir = "=2.5.0"
which = "=8.0.6"
