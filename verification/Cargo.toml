[package]
name = "agenda"
version = "0.1.0"
edition = "2021"
publish = false

[dependencies]
anyhow = "*"
async-trait = "*"
chrono = "*"
dotenv = "*"
reqwest = { version = "*", default-features = false, features = ["json"] }
serde = { version = "*", features = ["derive"] }
serde_json = "*"
tera = "*"
tokio = { version = "*", features = ["macros", "rt", "sync"] }
tracing-subscriber = "*"
