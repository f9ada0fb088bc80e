[package]
name = "harbr"
version = "0.1.0"
edition = "2021"
publish = false

[dependencies]
uuid = { version = "1", features = ["v4", "serde"] }
validator = { version = "*", features = ["derive"] }
serde = { version = "1", features = ["derive"] }
serde_json = "1"
tokio = { version = "1", features = ["rt-multi-thread", "macros", "process", "io-util", "sync", "time"] }
warp = { version = "0.3", default-features = false }
git2 = { version = "*", default-features = false }
clap = { version = "4", features = ["derive"] }
thiserror = "1"
url = { version = "2", features = ["serde"] }
chrono = { version = "0.4", features = ["serde"] }
sqlx = { version = "0.8", default-features = false, features = ["runtime-tokio", "sqlite", "any"] }
diesel = { version = "2", default-features = false }
