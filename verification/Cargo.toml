[package]
name = "schema_admin"
version = "0.1.0"
edition = "2021"
publish = false

[dependencies]
axum = "0.7"
lettre = { version = "0.11", default-features = false, features = ["builder", "smtp-transport", "sendmail-transport", "tokio1-rustls-tls"] }
log = "0.4"
minijinja = "2"
serde = { version = "1", features = ["derive"] }
serde_json = "1"
thiserror = "1"
trailbase-sqlite = "*"
ts-rs = { version = "10", features = ["serde-json-impl"] }
