[package]
name = "websnap"
version = "0.1.0"
edition = "2021"
publish = false

[dependencies]
image = "=0.24.9"
vtracer = "=0.6.5"
thirtyfour = "=0.31.0"
percent-encoding = "=2.3.2"
serde = { version = "=1.0.229", features = ["derive"] }
serde_json = "=1.0.151"
axum = "=0.8.9"
hyper = "=1.12.0"
tokio = { version = "=1.53.2", features = ["full"] }
tower = "=0.5.3"
tower-http = { version = "=0.7.1", features = ["compression-full"] }
tracing = "=0.1.44"
tracing-subscriber = { version = "=0.3.23", features = ["env-filter"] }
async-compression = { version = "=0.4.50", features = ["tokio", "gzip", "brotli", "deflate"] }
async-trait = "=0.1.92"
thiserror = "=2.0.21"
