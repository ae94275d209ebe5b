[package]
name = "bundlrs"
version = "0.1.0"
edition = "2021"
publish = false

[dependencies]
regex = "1"
comrak = { version = "*", default-features = false }
serde = { version = "1", features = ["derive"] }
serde_json = "1"
actix-web = { version = "4", default-features = false, features = ["macros", "cookies"] }
sqlx = { version = "0.7", default-features = false, features = ["any", "sqlite", "runtime-tokio"] }
