[package]
name = "text_expander"
version = "0.1.0"
edition = "2021"
publish = false

[dependencies]
anyhow = "1"
enigo = "0.1"
env_logger = "0.11"
log = "0.4"
once_cell = "1"
parking_lot = "0.12"
rdev = "0.5"
rusqlite = { version = "0.31", features = ["bundled"] }
serde = { version = "1", features = ["derive"] }
serde_json = "1"
