[package]
name = "ezytutor"
version = "0.1.0"
edition = "2021"
publish = false

[dependencies]
actix-web = "4"
actix-rt = "2"
actix-files = "0.6"
awc = "3"
rust-argon2 = "2"
rand = "0.8"
serde = { version = "1", features = ["derive"] }
serde_json = "1"
sqlx = { version = "0.7", default-features = false, features = ["runtime-tokio", "postgres", "chrono"] }
tera = "1"
chrono = { version = "0.4", features = ["serde"] }
dotenvy = "0.15"
