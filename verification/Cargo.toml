[package]
name = "deeplx_monitor"
version = "0.1.0"
edition = "2021"
publish = false

[dependencies]
moka = { version = "=0.12.16", features = ["sync"] }
sha2 = "=0.10.9"
serde_json = "=1.0.154"
csv = "=1.4.0"
mime_guess = "=2.0.5"
serde = { version = "=1.0.229", features = ["derive"] }
toml = "=0.8.23"
axum = "=0.7.9"
tokio = { version = "=1.54.1", features = ["full"] }
reqwest = { version = "=0.12.28", default-features = false, features = ["json"] }
rusqlite = { version = "=0.31.0", features = ["bundled"] }
notify = "=6.1.1"
tower-http = { version = "=0.5.2", features = ["compression-gzip", "cors"] }
rust-embed = "=8.13.0"
tracing = "=0.1.44"
tracing-subscriber = { version = "=0.3.23", features = ["env-filter"] }
libc = "=0.2.191"
