[package]
name = "github_issues_migrator"
version = "0.1.0"
edition = "2021"
publish = false

[dependencies]
anyhow = "=1.0.104"
async-trait = "=0.1.92"
bson = { version = "=2.15.0", features = ["chrono-0_4"] }
chrono = "=0.4.45"
futures = "=0.3.34"
mongodb = "=2.8.2"
reqwest = { version = "=0.11.27", default-features = false, features = ["json", "rustls-tls"] }
serde = { version = "=1.0.229", features = ["derive"] }
serde_json = "=1.0.154"
thiserror = "=1.0.69"
tokio = { version = "=1.54.1", features = ["macros", "rt-multi-thread"] }
