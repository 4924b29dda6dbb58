[package]
name = "clinic_booking"
version = "0.1.0"
edition = "2021"
publish = false

[dependencies]
anyhow = "*"
async-trait = "*"
axum = "*"
bb8 = "*"
chrono = { version = "*", features = ["serde"] }
diesel = { version = "*", features = ["postgres_backend", "uuid", "chrono"] }
diesel-async = { version = "*", features = ["postgres", "bb8"] }
serde = { version = "*", features = ["derive"] }
tokio = { version = "*", features = ["full"] }
utoipa = { version = "*", features = ["chrono", "uuid"] }
utoipa-axum = "*"
uuid = { version = "*", features = ["serde"] }
