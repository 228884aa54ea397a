[package]
name = "redis_pool_store"
version = "0.1.0"
edition = "2021"
publish = false

[dependencies]
async-trait = "*"
redis = { version = "*", default-features = false, features = ["tokio-comp", "connection-manager"] }
rmp-serde = "*"
thiserror = "*"
time = "*"
tower-sessions-core = "*"

[dev-dependencies]
serde_json = "*"
