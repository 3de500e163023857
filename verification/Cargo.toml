[package]
name = "trade_gate"
version = "0.1.0"
edition = "2021"
publish = false

[dependencies]
redis = { version = "*", features = ["tokio-comp"] }
tokio = { version = "*", features = ["sync", "rt-multi-thread", "macros", "time"] }
serde = { version = "*", features = ["derive"] }
serde_json = "*"
serde_yaml = "*"
async-trait = "*"
