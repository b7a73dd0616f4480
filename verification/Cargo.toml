[package]
name = "cms_core"
version = "0.1.0"
edition = "2021"
publish = false

[dependencies]
actix = "0.13"
actix-cors = "0.6"
actix-web = "4"
actix-web-httpauth = "0.8"
argon2 = { version = "0.5", features = ["std"] }
chrono = { version = "0.4", features = ["serde"] }
derive_more = "0.99"
diesel = { version = "1.4", features = ["postgres", "r2d2", "chrono"] }
dotenv = "0.15"
env_logger = "0.9"
jsonwebtoken = "8"
log = "0.4"
num_cpus = "1"
r2d2 = "0.8"
r2d2_redis = "0.14"
serde = { version = "1", features = ["derive"] }
serde_json = "1"
utoipa = { version = "1", features = ["actix_extras"] }
utoipa-swagger-ui = { version = "1", features = ["actix-web"] }
