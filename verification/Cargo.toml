[package]
name = "colette_repository"
version = "0.1.0"
edition = "2021"
publish = false

[dependencies]
anyhow = "1"
async-trait = "0.1"
chrono = { version = "0.4", default-features = false, features = ["alloc", "std", "serde"] }
sea-query = { version = "*", features = ["with-chrono", "with-uuid", "with-json"] }
serde = { version = "1", features = ["derive"] }
serde_json = "1"
thiserror = "*"
tokio = { version = "1", default-features = false, features = ["sync"] }
url = "2"
uuid = { version = "1", features = ["v4", "serde"] }
