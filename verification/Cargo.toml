[package]
name = "winnbot"
version = "0.1.0"
edition = "2021"
publish = false

[dependencies]
shakmaty = "0.26"
pgnparse = "0.1"
rand = "0.8"
image = { version = "0.24", default-features = false, features = ["png"] }
poise = "0.6"
serenity = "0.12"
tokio = { version = "1", features = ["full"] }
reqwest = { version = "0.11", features = ["json"] }
serde = { version = "1", features = ["derive"] }
serde_json = "1"
pyo3 = "0.20"
rusqlite = { version = "0.29", features = ["bundled"] }
async-rusqlite = "0.4"
dotenvy = "0.15"
sys-info = "0.9"
