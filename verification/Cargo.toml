[package]
name = "lenso_search"
version = "0.1.0"
edition = "2021"
publish = false

[dependencies]
futures = "*"
lenso = "*"
lenso-capability-agent-tool-provider = "*"
lenso-capability-secrets = "*"
lenso-kernel = "*"
lenso-postgres-kit = "*"
serde = { version = "1", features = ["derive"] }
serde_json = "1"
sqlx = { version = "*", default-features = false, features = ["postgres", "runtime-tokio"] }
thiserror = "2"
zeroize = "1"
