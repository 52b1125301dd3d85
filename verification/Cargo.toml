[package]
name = "tdf_config"
version = "0.1.0"
edition = "2021"
publish = false

[dependencies]
sqlx = { version = "*", default-features = false, features = ["mysql", "postgres", "runtime-tokio"] }
r2d2 = "*"
r2d2_redis = "*"
dotenv = "*"
lazy_static = "*"
