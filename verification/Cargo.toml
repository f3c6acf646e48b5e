[package]
name = "pica_core"
version = "0.1.0"
edition = "2021"
publish = false

[dependencies]
serde = { version = "1", features = ["derive"] }
serde_json = "1"
chrono = "0.4"
uuid = { version = "1", features = ["v4"] }
rand = "0.8"
url = "2"
tokio = { version = "1", features = ["macros", "rt-multi-thread", "time", "sync", "net"] }
reqwest = { version = "0.12", default-features = false, features = ["json", "rustls-tls"] }
mongodb = "3"
axum = "0.8"
http = "1"
bytes = "1"
futures = "0.3"
redis = { version = "0.27", features = ["tokio-comp"] }
clap = { version = "4", features = ["derive"] }
toml = "0.8"
directories = "5"
async-trait = "0.1"
