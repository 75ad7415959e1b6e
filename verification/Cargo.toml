[package]
name = "todo_api"
version = "0.1.0"
edition = "2021"
publish = false

[dependencies]
actix-web = "=4.18.1"
actix-web-lab = "=0.20.2"
chrono = "=0.4.45"
dotenv = "=0.15.0"
env_logger = "=0.11.11"
serde = { version = "=1.0.229", features = ["derive"] }
sqlx = { version = "=0.8.6", default-features = false, features = ["sqlite", "runtime-tokio", "chrono", "json", "migrate", "derive"] }
