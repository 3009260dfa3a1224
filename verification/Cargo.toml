[package]
name = "rcon_moderation"
version = "0.1.0"
edition = "2021"
publish = false

[dependencies]
regex = "1"
axum = "*"
chrono = { version = "0.4", features = ["serde"] }
serde = { version = "1", features = ["derive"] }
sqlx = { version = "*", default-features = false, features = ["mysql", "runtime-tokio", "chrono", "derive"] }
tokio = { version = "1", features = ["net", "io-util", "time", "rt"] }
tracing = "0.1"
utoipa = { version = "*", features = ["chrono"] }
