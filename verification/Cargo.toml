[package]
name = "credit_ledger"
version = "0.1.0"
edition = "2021"
publish = false

[dependencies]
axum = "*"
serde = { version = "*", features = ["derive"] }
sqlx = { version = "*", default-features = false, features = ["runtime-tokio", "postgres"] }
time = { version = "*", features = ["formatting"] }
tokio = { version = "*", features = ["rt-multi-thread", "macros", "net"] }
