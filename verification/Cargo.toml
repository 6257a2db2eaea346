[package]
name = "zero2prod"
version = "0.1.0"
edition = "2021"
publish = false

[dependencies]
unicode-segmentation = "1"
hex = "0.4"
urlencoding = "2"
hmac = { version = "0.12", features = ["std"] }
sha2 = "0.10"
secrecy = { version = "0.8", features = ["serde"] }
serde = { version = "1", features = ["derive"] }
uuid = { version = "1", features = ["v4", "serde"] }
anyhow = "1"
actix-web = "4"
actix-session = "0.7"
actix-web-flash-messages = { version = "0.4", features = ["cookies"] }
tracing = { version = "0.1", features = ["log"] }
tracing-actix-web = "0.7"
tracing-bunyan-formatter = "0.3"
tracing-log = "0.1"
tracing-subscriber = { version = "0.3", features = ["registry", "env-filter"] }
tokio = { version = "1", features = ["macros", "rt-multi-thread"] }
sqlx = { version = "0.7", default-features = false, features = ["runtime-tokio", "postgres"] }
