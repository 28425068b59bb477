[package]
name = "reminder_bot"
version = "0.1.0"
edition = "2021"
publish = false

[dependencies]
chrono = "=0.4.45"
chrono-tz = "=0.10.4"
teloxide = { version = "=0.17.0", default-features = false, features = ["macros", "ctrlc_handler", "sqlite-storage-rustls"] }
sqlx = { version = "=0.8.6", features = ["sqlite", "runtime-tokio"] }
tokio = { version = "=1.54.1", features = ["full"] }
reqwest = { version = "=0.12.28", default-features = false, features = ["json"] }
serde = { version = "=1.0.229", features = ["derive"] }
serde_json = "=1.0.154"
log = "=0.4.35"
pretty_env_logger = "=0.5.0"
dotenvy = "=0.15.7"
tzf-rs = "=2.3.0"
# Not used directly: teloxide-core depends on takecell, whose 0.1.2 release needs a newer
# rustc than the one this crate is built with, so the dependency is held below it.
takecell = ">=0.1.0, <0.1.2"
