[package]
name = "newswatch"
version = "0.1.0"
edition = "2021"
publish = false

[dependencies]
scraper = "*"
actix-web = "*"
actix-cors = "*"
chrono = "*"
sqlx = { version = "*", default-features = false, features = ["sqlite", "runtime-tokio"] }
tokio = { version = "*", features = ["rt-multi-thread", "macros", "time", "signal", "sync"] }
tracing = "*"
