[package]
name = "local-llm-api"
version = "0.1.0"
edition = "2021"
publish = false

[dependencies]
anyhow = "1"
async-stream = "0.3"
async-trait = "0.1"
axum = "=0.7.9"
bytemuck = "1"
chrono = { version = "=0.4.45", features = ["serde"] }
dotenvy = "0.15"
futures-util = "0.3"
log = "0.4"
memmap2 = "0.9"
minijinja = "=2.24.0"
nalgebra = "=0.33.3"
serde = { version = "1", features = ["derive"] }
sqlx = { version = "0.8", default-features = false, features = ["sqlite", "runtime-tokio", "uuid", "chrono", "derive"] }
tokio = { version = "=1.54.1", features = ["full"] }
tower = "0.5"
tower-http = { version = "0.6", features = ["cors", "fs"] }
tracing-subscriber = "0.3"
uuid = { version = "=1.29.0", features = ["v4", "serde"] }
wgcore = "=0.2.2"
wgml = "=0.2.0"
