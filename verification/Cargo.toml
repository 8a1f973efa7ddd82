[package]
name = "blog_server"
version = "0.1.0"
edition = "2021"
publish = false

[dependencies]
jsonwebtoken = "=9.3.1"
md5 = "=0.7.0"
regex = "=1.13.1"
uuid = { version = "=1.29.1", features = ["v4"] }
serde = { version = "=1.0.229", features = ["derive"] }
serde_json = "=1.0.154"
rocket = { version = "=0.5.2", features = ["json"] }
rocket_db_pools = { version = "=0.1.0", features = ["sqlx_postgres"] }
sqlx = { version = "=0.7.4", default-features = false, features = ["uuid", "postgres", "runtime-tokio-rustls"] }
