[package]
name = "write_behind"
version = "0.1.0"
edition = "2021"
publish = false

[dependencies]
anyhow = "*"
rmp-serde = "*"
serde = { version = "*", features = ["derive"] }
serde_json = "*"
sqlx = { version = "*", default-features = false, features = ["postgres", "runtime-tokio"] }
tokio = { version = "*", features = ["rt-multi-thread", "sync", "time", "macros"] }
