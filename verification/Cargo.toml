[package]
name = "browserlify"
version = "0.1.0"
edition = "2021"
publish = false

[dependencies]
axum = { version = "*", features = ["ws"] }
chromiumoxide = { version = "*", default-features = false, features = ["tokio-runtime"] }
chrono = "*"
clap = { version = "*", features = ["derive"] }
futures = "*"
lopdf = "*"
serde = { version = "*", features = ["derive"] }
serde_json = "*"
tempfile = "*"
tokio = { version = "*", features = ["sync", "rt-multi-thread", "macros", "process", "net", "io-util", "time", "fs"] }
tokio-tungstenite = "*"
tower-http = { version = "*", features = ["cors", "fs"] }
url = "*"
uuid = { version = "*", features = ["v4"] }
which = "*"
