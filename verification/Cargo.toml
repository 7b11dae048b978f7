[package]
name = "greenhouse"
version = "0.1.0"
edition = "2021"
publish = false

[dependencies]
chrono = "0.4"
dotenv = "0.15"
rppal = "*"
serde = { version = "1", features = ["derive"] }
sqlx = { version = "0.7", default-features = false, features = ["runtime-tokio", "sqlite", "chrono"] }
tokio = { version = "1", features = ["macros", "rt-multi-thread", "sync", "time"] }
warp = { version = "0.3", default-features = false }
