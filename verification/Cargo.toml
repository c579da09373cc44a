[package]
name = "json_validator"
version = "0.1.0"
edition = "2021"
publish = false

[dependencies]
actix-files = "0.6"
actix-web = { version = "4", default-features = false, features = ["macros"] }
actix-web-prometheus = "0.1"
dotenv = "0.15"
env_logger = "0.11"
log = "0.4"
num_cpus = "1"
serde = { version = "1", features = ["derive"] }
serde_json = { version = "1", features = ["preserve_order"] }
