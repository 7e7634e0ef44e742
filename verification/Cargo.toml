[package]
name = "repository"
version = "0.1.0"
edition = "2021"
publish = false

[dependencies]
chrono = { version = "=0.4.45", features = ["serde"] }
fake = "=2.10.0"
sqlx = { version = "=0.7.4", default-features = false, features = ["runtime-tokio", "postgres", "chrono", "macros"] }
actix-web = "=4.18.1"
actix-http = "=3.19.0"
async-trait = "=0.1.92"
dotenv = "=0.15.0"
env_logger = "=0.10.2"
log = "=0.4.34"
reqwest = { version = "=0.11.27", default-features = false }
serde = { version = "=1.0.229", features = ["derive"] }
futures = "0.3"
move-core-types = "*"
sui-sdk = "*"
