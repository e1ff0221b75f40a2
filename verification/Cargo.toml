[package]
name = "rust_class_web"
version = "0.1.0"
edition = "2021"
publish = false

[dependencies]
actix-cors = "0.7"
actix-web = { version = "4", default-features = false, features = ["macros", "compress-gzip", "rustls-0_23"] }
anyhow = "1"
chrono = "=0.4.45"
config = { version = "0.15", default-features = false, features = ["toml"] }
figment = { version = "0.10", features = ["toml"] }
jsonwebtoken = { version = "=9.3.1", default-features = false }
openssl = "0.10"
redis = "0.27"
rust-argon2 = "=2.1.0"
rustls = { version = "0.23", default-features = false, features = ["ring", "std", "tls12", "logging"] }
rustls-pemfile = "2"
sea-orm = { version = "1", default-features = false, features = ["macros", "sqlx-sqlite", "runtime-tokio-rustls", "with-chrono"] }
serde = { version = "=1.0.229", features = ["derive"] }
serde_json = { version = "=1.0.154", features = ["preserve_order"] }
sqlx = { version = "0.8", default-features = false, features = ["sqlite", "runtime-tokio"] }
time = { version = "0.3", features = ["formatting", "local-offset", "macros"] }
toml = "=0.8.23"
tracing = "0.1"
tracing-actix-web = "0.7"
tracing-appender = "0.2"
tracing-bunyan-formatter = "0.3"
tracing-log = "0.2"
tracing-subscriber = { version = "0.3", features = ["json", "time", "env-filter"] }
validator = { version = "=0.20.0", features = ["derive"] }
