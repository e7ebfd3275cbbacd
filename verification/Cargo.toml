[package]
name = "lifehon"
version = "0.1.0"
edition = "2021"
publish = false

[dependencies]
simple_crypt = "*"
anyhow = "1"
axum = "0.8"
axum-macros = "0.5"
axum-valid = "*"
validator = { version = "*", features = ["derive"] }
async-graphql = "7"
async-graphql-axum = "7"
jsonwebtoken = "9"
sqlx = { version = "0.8", default-features = false, features = ["postgres", "runtime-tokio", "chrono", "uuid", "macros"] }
chrono = { version = "0.4", features = ["serde"] }
serde = { version = "1", features = ["derive"] }
dotenv = "0.15"
log = "0.4"
env_logger = "*"
tokio = { version = "1", features = ["macros", "rt-multi-thread", "net"] }
reqwest = { version = "0.12", default-features = false }
