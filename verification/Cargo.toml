[package]
name = "musicbot"
version = "0.1.0"
edition = "2021"
publish = false

[dependencies]
dotenv = "0.15"
poise = "0.3"
serenity = { version = "0.11", features = ["collector", "cache", "client", "gateway", "model", "rustls_backend"] }
songbird = { version = "0.3", features = ["builtin-queue", "yt-dlp"] }
tokio = { version = "1", features = ["macros", "rt-multi-thread"] }
