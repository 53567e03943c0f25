[package]
name = "task_tracker"
version = "0.1.0"
edition = "2021"
publish = false

[dependencies]
actix-files = "*"
actix-web = "*"
chrono = { version = "*", features = ["serde"] }
dotenv = "*"
env_logger = "*"
r2d2 = "*"
r2d2_sqlite = "*"
rusqlite = "*"
serde = { version = "*", features = ["derive"] }
serde_json = "*"
tera = "*"
thiserror = "*"
uuid = { version = "*", features = ["v4"] }
