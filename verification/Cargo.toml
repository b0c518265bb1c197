[package]
name = "now_playing"
version = "0.1.0"
edition = "2021"
publish = false

[dependencies]
askama = "=0.16.1"
axum = "=0.8.9"
paho-mqtt = "=0.14.0"
reqwest = { version = "=0.13.5", default-features = false, features = ["json"] }
serde = { version = "=1.0.229", features = ["derive"] }
serde_json = "=1.0.154"
sqlx = { version = "=0.9.0", default-features = false, features = ["runtime-tokio", "sqlite"] }
thiserror = "=2.0.21"
tokio = { version = "=1.54.1", features = ["macros", "net", "rt-multi-thread", "signal", "sync"] }
tower-http = { version = "=0.7.1", features = ["fs"] }
tower-sessions = "=0.14.0"
tower-sessions-file-store = "=0.2.0"
