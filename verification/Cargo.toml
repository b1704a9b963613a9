[package]
name = "openfga_sdk"
version = "0.1.0"
edition = "2021"
publish = false

[dependencies]
ulid = "1"
chrono = { version = "0.4", features = ["serde"] }
serde = { version = "1", features = ["derive"] }
serde_json = "1"
url = "2"
thiserror = "1"
reqwest = { version = "0.12", default-features = false, features = ["json", "stream"] }
tokio = { version = "1", features = ["sync", "time", "rt", "macros"] }
bytes = "1"
futures = "0.3"
pin-project-lite = "0.2"
async-trait = "0.1"
