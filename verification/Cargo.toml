[package]
name = "blog_service"
version = "0.1.0"
edition = "2021"
publish = false

[dependencies]
actix-cors = "*"
actix-web = { version = "4", default-features = false, features = ["macros"] }
chrono = { version = "0.4", features = ["serde"] }
futures-util = "0.3"
sentry = { version = "*", default-features = false }
serde = { version = "1", features = ["derive"] }
serde_json = "1"
sqlx = { version = "*", default-features = false, features = ["postgres", "chrono", "runtime-tokio", "derive"] }
tokio = { version = "1", features = ["macros", "rt-multi-thread"] }
