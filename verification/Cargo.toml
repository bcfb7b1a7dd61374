[package]
name = "task_tracker"
version = "0.1.0"
edition = "2021"
publish = false

[dependencies]
bcrypt = "=0.19.3"
jsonwebtoken = { version = "=11.1.0", features = ["rust_crypto"] }
serde_json = "*"
serde = { version = "*", features = ["derive"] }
actix-web = "4"
actix-cors = "*"
chrono = { version = "*", features = ["serde"] }
dotenv = "*"
env_logger = "*"
log = "*"
