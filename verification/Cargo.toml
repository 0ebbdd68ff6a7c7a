[package]
name = "jwt_auth_lib"
version = "0.1.0"
edition = "2021"
publish = false

[dependencies]
argon2 = { version = "0.5", features = ["std"] }
uuid = { version = "1", features = ["v4", "serde"] }
chrono = "0.4"
serde = { version = "1", features = ["derive"] }
axum = "0.7"
axum-extra = { version = "0.9", features = ["cookie-private"] }
tower-cookies = "0.10"
tower = "0.4"
tower-http = { version = "0.5", features = ["cors", "trace"] }
tokio = { version = "1", features = ["macros", "rt-multi-thread", "net"] }
jsonwebtoken = "9"
sqlx = { version = "0.7", default-features = false, features = ["postgres", "runtime-tokio", "macros"] }
dotenv = "0.15"
