[package]
name = "data_comparison_tool"
version = "0.1.0"
edition = "2021"
publish = false

[dependencies]
chrono = "0.4"
rand = "0.8"
serde = { version = "1", features = ["derive"] }
toml = "0.8"
csv = "1"
async-std = "1"
sqlx = { version = "0.8", default-features = false, features = ["runtime-async-std", "mysql", "sqlite"] }
ratatui = "0.29"
