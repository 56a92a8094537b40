[package]
name = "tabby_hub"
version = "0.1.0"
edition = "2021"
publish = false

[dependencies]
anyhow = "=1.0.104"
async-trait = "=0.1.92"
axum = { version = "=0.6.20", features = ["ws", "headers"] }
futures = "=0.3.34"
hyper = "=0.14.32"
juniper = "0.15"
lazy_static = "=1.5.1"
querystring = "=1.1.0"
reqwest = { version = "=0.11.27", default-features = false, features = ["json", "rustls-tls"] }
serde = { version = "=1.0.229", features = ["derive"] }
serde_json = "=1.0.154"
serdeconv = "=0.4.1"
tarpc = { version = "=0.33.0", features = ["serde1", "tokio1"] }
tokio = { version = "=1.54.1", features = ["macros", "rt-multi-thread", "sync"] }
tracing = "=0.1.44"
urlencoding = "=2.1.3"
