[package]
name = "nebula"
version = "0.1.0"
edition = "2021"
publish = false

[dependencies]
uuid = { version = "*", features = ["v4"] }
chrono = "*"
dirs = "*"
sqlx = { version = "*", default-features = false, features = ["mysql", "runtime-tokio"] }
tokio = { version = "*", default-features = false, features = ["rt-multi-thread", "sync"] }
async-trait = "*"
serde = { version = "*", features = ["derive"] }
toml = "*"
