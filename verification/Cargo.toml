[package]
name = "lance"
version = "0.1.0"
edition = "2021"
publish = false

[dependencies]
soroban-sdk = "22"
axum = "0.7"
sqlx = { version = "0.8", default-features = false, features = ["postgres", "runtime-tokio", "chrono", "uuid", "derive"] }
chrono = { version = "0.4", features = ["serde"] }
serde = { version = "1", features = ["derive"] }
tracing = "0.1"
uuid = { version = "1", features = ["serde"] }
