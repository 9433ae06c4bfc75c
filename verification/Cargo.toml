[package]
name = "dreambreaker"
version = "0.1.0"
edition = "2021"
publish = false

[dependencies]
bcrypt = "=0.17.1"
chrono = { version = "=0.4.45", default-features = false, features = ["std", "now"] }
serde_json = "=1.0.154"
dotenvy = "=0.15.7"
sqlx = { version = "=0.8.6", default-features = false, features = ["postgres", "runtime-tokio", "uuid", "json", "migrate", "chrono"] }
