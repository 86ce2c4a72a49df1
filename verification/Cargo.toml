[package]
name = "l1core"
version = "0.1.0"
edition = "2021"
publish = false

[dependencies]
rand = "*"
tokio = { version = "*", features = ["full"] }
sqlx = { version = "*", features = ["runtime-tokio", "mysql"] }
anyhow = "*"
tracing = "*"
