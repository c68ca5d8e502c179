[package]
name = "gpop"
version = "0.1.0"
edition = "2021"
publish = false

[dependencies]
chrono = { version = "0.4", default-features = false, features = ["clock", "serde"] }
uuid = { version = "1", features = ["v4"] }
sanitize-filename = "*"
mime_guess = "2"
serde = { version = "1", features = ["derive"] }
serde_json = "1"
tokio = { version = "1", features = ["rt-multi-thread", "macros", "sync", "time", "net", "signal"] }
actix-web = { version = "4", default-features = false, features = ["macros"] }
actix-files = "0.6"
actix-multipart = "*"
actix-ws = "*"
futures-util = "0.3"
tokio-tungstenite = "*"
tracing = "0.1"
tracing-subscriber = { version = "0.3", features = ["env-filter"] }
clap = { version = "4", features = ["derive", "env"] }
