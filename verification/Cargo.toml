[package]
name = "pix_service"
version = "0.1.0"
edition = "2021"
publish = false

[dependencies]
serde_json = "*"
uuid = { version = "*", features = ["v4"] }
tokio = { version = "*", features = ["full"] }
reqwest = { version = "*", default-features = false, features = ["json"] }
clap = { version = "*", features = ["derive"] }
log = "*"
log4rs = "*"
anyhow = "*"
sqlx = { version = "*", default-features = false, features = ["runtime-tokio", "postgres"] }
