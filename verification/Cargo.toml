[package]
name = "axum-error-sets"
version = "0.4.0"
edition = "2021"
publish = false

[dependencies]
axum = "*"
axum-core = "*"
http = "1"
aide = "*"
schemars = "*"
serde = { version = "1", features = ["derive"] }
type-sets = "*"
utoipa = "*"
