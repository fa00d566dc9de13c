[package]
name = "rob"
version = "0.1.0"
edition = "2021"
publish = false

[dependencies]
actix-web = { version = "=4.18.1", default-features = false, features = ["macros", "cookies", "rustls-0_21"] }
actix-session = { version = "=0.9.0", features = ["cookie-session"] }
actix-files = "=0.6.10"
sqlx = { version = "=0.7.4", default-features = false, features = ["runtime-tokio", "postgres", "chrono"] }
oauth2 = { version = "=4.4.2", default-features = false, features = ["reqwest", "rustls-tls"] }
rustls = "=0.21.12"
rustls-pemfile = "=1.0.4"
dotenv = "=0.15.0"
env_logger = "=0.10.2"
log = "=0.4.35"
serde = { version = "=1.0.229", features = ["derive"] }
chrono = { version = "=0.4.45", default-features = false, features = ["serde", "clock"] }
anyhow = "=1.0.104"
serde_json = "=1.0.154"
