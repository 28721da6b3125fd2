[package]
name = "movie_bot"
version = "0.1.0"
edition = "2021"
publish = false

[dependencies]
anyhow = "=1.0.104"
chashmap = "=2.2.2"
chrono = "=0.4.45"
chrono-tz = "=0.8.6"
dotenv = "=0.15.0"
moka = { version = "=0.12.16", features = ["sync"] }
mongodb = { version = "=2.8.2", features = ["bson-chrono-0_4"] }
rand = "=0.8.8"
reqwest = { version = "=0.11.27", features = ["json"] }
serde = { version = "=1.0.229", features = ["derive"] }
serenity = "=0.11.7"
tokio = { version = "=1.54.1", features = ["macros", "rt-multi-thread"] }
