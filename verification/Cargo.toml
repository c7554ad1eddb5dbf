[package]
name = "mae"
version = "0.1.0"
edition = "2021"
publish = false

[dependencies]
num = "=0.4.3"
anyhow = "=1.0.104"
serde = { version = "=1.0.229", features = ["derive"] }
serde_json = "=1.0.154"
chrono = { version = "=0.4.45", features = ["serde"] }
secrecy = "=0.10.3"
actix-web = "=4.18.1"
actix-session = { version = "=0.10.1", features = ["redis-session"] }
sqlx = { version = "=0.8.6", default-features = false, features = ["postgres", "runtime-tokio", "chrono", "json", "macros"] }
tracing-actix-web = "=0.7.25"
syn = { version = "=2.0.119", features = ["full"] }
quote = "=1.0.47"
proc-macro2 = "=1.0.107"
