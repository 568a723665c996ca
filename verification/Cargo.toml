[package]
name = "openusb"
version = "0.1.0"
edition = "2021"
publish = false

[dependencies]
anyhow = "=1.0.104"
async-trait = "=0.1.92"
axum = { version = "=0.8.9", features = ["ws"] }
chrono = { version = "=0.4.45", features = ["serde"] }
clap = { version = "=4.6.7", features = ["derive"] }
gethostname = "=1.1.0"
jsonwebtoken = "=9.3.1"
mdns-sd = "=0.21.7"
muda = "*"
open = "*"
png = "*"
reqwest = { version = "=0.12.28", default-features = false, features = ["json"] }
ring = "=0.17.14"
rusqlite = { version = "=0.41.1", features = ["bundled"] }
serde = { version = "=1.0.229", features = ["derive"] }
serde_json = "=1.0.154"
tao = "*"
tokio = { version = "=1.54.1", features = ["full"] }
toml = "=1.1.8"
tower-http = { version = "=0.6.11", features = ["cors", "trace", "fs"] }
tracing = "=0.1.44"
tracing-subscriber = { version = "=0.3.23", features = ["env-filter"] }
tray-icon = "*"
uuid = { version = "=1.29.0", features = ["v4", "serde"] }
