[package]
name = "rust_todo_api"
version = "0.1.0"
edition = "2021"
publish = false

[dependencies]
argon2 = { version = "=0.5.3", features = ["std"] }
axum = "=0.7.9"
chrono = { version = "=0.4.45", features = ["serde"] }
dotenvy = "=0.15.7"
jsonwebtoken = "=9.3.1"
serde = { version = "=1.0.229", features = ["derive"] }
serde_json = "=1.0.154"
sqlx = { version = "=0.7.4", default-features = false, features = ["runtime-tokio", "postgres", "uuid", "chrono", "migrate"] }
tokio = { version = "=1.54.1", features = ["full"] }
tower-http = { version = "=0.5.2", features = ["cors"] }
utoipa = { version = "=4.2.3", features = ["uuid", "chrono"] }
utoipa-swagger-ui = { version = "=7.1.0", features = ["axum", "vendored"] }
uuid = { version = "=1.29.0", features = ["v4", "serde"] }
