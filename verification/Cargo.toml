[package]
name = "telegram_ingest"
version = "0.1.0"
edition = "2021"
publish = false

[dependencies]
chrono = { version = "0.4", default-features = false, features = ["std", "clock"] }
uuid = { version = "1", features = ["v4"] }
sqlx = { version = "0.8", default-features = false, features = ["runtime-tokio", "postgres", "chrono", "uuid"] }
tokio = { version = "1", features = ["rt-multi-thread", "macros", "time"] }
grammers-client = "0.7"
grammers-session = "0.7"
dotenv = "0.15"
tracing = "0.1"
tracing-subscriber = "0.3"
