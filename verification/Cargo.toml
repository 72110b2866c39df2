[package]
name = "user_service"
version = "0.1.0"
edition = "2021"
publish = false

[dependencies]
actix-web = { version = "=4.15.0", default-features = false, features = ["macros"] }
serde = { version = "=1.0.229", features = ["derive"] }
sqlx = { version = "=0.8.6", default-features = false, features = ["runtime-tokio", "postgres"] }
log = "=0.4.34"
dotenv = "=0.15.0"
derive_more = "=0.99.20"

[dev-dependencies]
serde_json = "=1.0.151"
