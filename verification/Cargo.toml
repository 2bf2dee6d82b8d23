[package]
name = "team_registry"
version = "0.1.0"
edition = "2021"
publish = false

[dependencies]
diesel = { version = "*", default-features = false }
validator = "*"
uuid = { version = "*", features = ["v4"] }
serde = { version = "*", features = ["derive"] }
serde_json = "*"
actix-web = "*"
juniper = "*"
chrono = { version = "*", features = ["serde"] }
dotenv = "*"
env_logger = "*"
