[package]
name = "reply_bot"
version = "0.1.0"
edition = "2021"
publish = false

[dependencies]
dotenvy = "=0.15.7"
rand = "=0.8.8"
sqlx = { version = "=0.8.6", default-features = false, features = ["runtime-tokio", "sqlite"] }
takecell = "=0.1.1"
teloxide = "=0.17.0"
tokio = { version = "=1.54.1", features = ["macros", "rt-multi-thread"] }
