[package]
name = "loco_keycloak_auth"
version = "0.1.0"
edition = "2021"
publish = false

[dependencies]
axum = "*"
axum-keycloak-auth = "*"
serde = { version = "*", features = ["derive"] }
serde_json = "*"

[dev-dependencies]
tokio = { version = "*", features = ["rt", "rt-multi-thread"] }
