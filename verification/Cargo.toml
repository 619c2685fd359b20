[package]
name = "oxdi"
version = "0.1.0"
edition = "2021"
publish = false

[dependencies]
anyhow = "1"
argh = "0.1"
bunt = "0.2"
dotenv = "0.15"
futures = "0.3"
serde = { version = "1", features = ["derive"] }
serde_json = "1"
serde_qs = "*"
surf = { version = "2", default-features = false, features = ["h1-client"] }
thiserror = "1"
tracing = "0.1"
