[package]
name = "mywork"
version = "0.1.0"
edition = "2021"
publish = false

[dependencies]
chrono = "0.4"
cron = "*"
serde = { version = "1", features = ["derive"] }
serde_json = "1"
uuid = { version = "1", features = ["v4"] }
tokio = { version = "1", features = ["full"] }
tokio-cron-scheduler = "*"
sqlx = { version = "0.8", default-features = false, features = ["sqlite", "runtime-tokio", "derive"] }
nix = { version = "*", features = ["signal", "process"] }
core-foundation = "*"
mach = "*"
