[package]
name = "geoffrey"
version = "0.1.0"
edition = "2021"
publish = false

[dependencies]
chrono = "=0.4.45"
poise = "=0.5.7"
serenity = { version = "=0.11.7", features = ["unstable_discord_api"] }
sea-orm = { version = "=0.12.15", features = ["sqlx-sqlite", "runtime-tokio-rustls", "macros"] }
sea-orm-migration = { version = "=0.12.15", default-features = false, features = ["sqlx-sqlite", "runtime-tokio-rustls"] }
tokio = { version = "=1.54.1", features = ["macros", "rt-multi-thread"] }
anyhow = "=1.0.104"
log = "=0.4.35"
env_logger = "=0.10.2"
async-trait = "=0.1.92"
