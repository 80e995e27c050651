[package]
name = "pera"
version = "0.1.0"
edition = "2021"
publish = false

[dependencies]
axum = "0.7"
axum-extra = { version = "0.9", features = ["typed-header"] }
bcrypt = "0.15"
chrono = { version = "0.4", features = ["serde"] }
csv = "1"
jsonwebtoken = "9"
lettre = { version = "=0.11.7", default-features = false, features = ["builder", "smtp-transport", "tokio1", "tokio1-rustls-tls"] }
magic-crypt = "3"
rand = "0.8"
reqwest = { version = "0.12", default-features = false, features = ["json", "rustls-tls"] }
serde = { version = "1", features = ["derive"] }
serde_json = "1"
sqlx = { version = "0.8", default-features = false, features = ["runtime-tokio", "postgres", "uuid", "chrono", "json", "macros"] }
thiserror = "1"
tokio = { version = "1", features = ["full"] }
tracing = "0.1"
uuid = { version = "1", features = ["v4", "serde"] }
