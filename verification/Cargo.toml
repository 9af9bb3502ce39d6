[package]
name = "fieldmid"
version = "0.1.0"
edition = "2021"
publish = false

[dependencies]
anyhow = "=1.0.104"
async-trait = "=0.1.92"
base64 = "=0.22.1"
chrono = { version = "=0.4.45", default-features = false, features = ["now"] }
crossterm = "=0.28.1"
dialoguer = { version = "=0.11.0", default-features = false, features = ["password"] }
dirs = "=6.0.0"
dotenvy = "=0.15.7"
futures-lite = "=2.6.1"
getrandom = "=0.3.4"
hex = "=0.4.3"
hostname = "=0.4.2"
http-client = { version = "=6.5.3", default-features = false }
powersync = "=0.0.4"
ratatui = { version = "=0.29.0", default-features = false, features = ["crossterm"] }
reqwest = { version = "=0.12.28", default-features = false, features = ["json", "rustls-tls"] }
rusqlite = "*"
serde = { version = "=1.0.229", features = ["derive"] }
serde_json = "=1.0.154"
tokio = { version = "=1.54.1", features = ["macros", "rt-multi-thread", "time", "signal"] }
uuid = { version = "=1.29.0", features = ["v4"] }
