[package]
name = "notes_service"
version = "0.1.0"
edition = "2021"
publish = false

[dependencies]
axum = "*"
bson = "*"
dotenvy = "*"
futures = "*"
mongodb = "*"
serde = { version = "*", features = ["derive"] }
tokio = { version = "*", features = ["macros", "rt-multi-thread", "net"] }
