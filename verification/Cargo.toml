[package]
name = "ttsbot"
version = "0.1.0"
edition = "2021"
publish = false

[dependencies]
base64 = "0.13"
rand = "0.8"
regex = "1"
urlencoding = "2"
fluent-templates = "0.15"
serde = { version = "1", features = ["derive"] }
serde_json = "1"
tokio = { version = "1", features = ["full"] }
tempfile = "3"
reqwest = { version = "0.12", default-features = false, features = ["json", "rustls-tls", "gzip"] }
yup-oauth2 = "12"
serenity = "0.12"
sqlx = { version = "0.8", default-features = false, features = ["postgres", "runtime-tokio", "macros"] }
redis = { version = "1", features = ["tokio-comp"] }
anyhow = "1"
thiserror = "2"
log = "0.4"
pretty_env_logger = "0.5"
dotenv = "0.15"
