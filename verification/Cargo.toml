[package]
name = "quiz_bot"
version = "0.1.0"
edition = "2021"
publish = false

[dependencies]
dotenv = "0.15"
serenity = "0.10"
tokio = { version = "1", features = ["macros", "rt-multi-thread"] }
