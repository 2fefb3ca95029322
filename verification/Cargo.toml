[package]
name = "sidekiq"
version = "0.13.0"
edition = "2021"
publish = false

[dependencies]
async-trait = "0.1"
bb8 = "0.9"
chrono = "0.4"
convert_case = "0.6"
cron_clock = "0.8"
hex = "0.4"
opentelemetry = { version = "0.31", features = ["metrics"] }
rand = "0.8"
redis = { version = "1.1", features = ["tokio-comp"] }
serde = { version = "1", features = ["derive"] }
serde_json = "1"
sha2 = "0.10"
sysinfo = "0.37"
thiserror = "2"
tokio = { version = "1", features = ["rt", "macros"] }
tracing = "0.1"
