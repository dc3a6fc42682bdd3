[package]
name = "auth_service"
version = "0.1.0"
edition = "2021"
publish = false

[dependencies]
validator = "*"
hibp = "*"
tokio = { version = "1", features = ["full"] }
axum = "*"
tower-http = { version = "*", features = ["fs"] }
serde = { version = "1", features = ["derive"] }
reqwest = { version = "*", default-features = false, features = ["json"] }
async-trait = "0.1"

[dev-dependencies]
fake = "*"
