[package]
name = "api"
version = "0.1.0"
edition = "2021"
publish = false

[dependencies]
anyhow = "=1.0.104"
axum = "=0.8.9"
base64 = "=0.22.1"
bigdecimal = "=0.4.11"
chrono = "=0.4.45"
ed25519-dalek = "=1.0.1"
hex = "=0.4.3"
http = "=1.5.0"
jsonwebtoken = "=9.3.1"
log = "=0.4.35"
moka = { version = "=0.12.16", features = ["future"] }
reqwest = { version = "=0.12.28", default-features = false, features = ["json", "rustls-tls"] }
serde = { version = "=1.0.229", features = ["derive"] }
serde_json = { version = "=1.0.154", features = ["preserve_order"] }
sha2 = "=0.10.9"
sqlx = { version = "=0.8.6", features = ["postgres", "runtime-tokio", "bigdecimal", "chrono"] }
thiserror = "=1.0.69"
tokio = { version = "=1.54.1", features = ["full"] }
tower-http = { version = "=0.6.11", features = ["cors"] }
