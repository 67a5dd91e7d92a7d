[package]
name = "tihc"
version = "0.1.0"
edition = "2021"
publish = false

[dependencies]
regex = "=1.13.1"
sqlparser = "=0.63.0"
sha2 = "=0.10.9"
bcrypt = "=0.19.3"
uuid = { version = "=1.29.1", features = ["v4"] }
urlencoding = "=2.1.3"
chrono = { version = "=0.4.45", features = ["serde"] }
chrono-tz = { version = "=0.10.4", features = ["serde"] }
serde = { version = "=1.0.229", features = ["derive"] }
serde_json = "=1.0.154"
async-trait = "=0.1.92"
anyhow = "=1.0.104"
thiserror = "=2.0.21"
tokio = { version = "=1.54.1", features = ["full"] }
jsonwebtoken = "=9.3.1"
tracing = "=0.1.44"
axum = "=0.8.9"
toml = "=1.2.1"
base64 = "=0.22.1"
futures = "=0.3.34"
oauth2 = "=5.0.0"
reqwest = { version = "=0.12.28", default-features = false, features = ["json", "rustls-tls"] }
sqlx = { version = "=0.9.0", default-features = false, features = ["mysql", "runtime-tokio", "chrono", "json", "macros"] }
validator = { version = "=0.21.0", features = ["derive"] }
mime_guess = "=2.0.5"
hyper = { version = "=1.12.0", features = ["server", "http1"] }
hyper-util = { version = "=0.1.21", features = ["tokio", "service"] }
tower-http = { version = "=0.6.11", features = ["cors"] }
