[package]
name = "isup"
version = "0.1.0"
edition = "2021"
publish = false

[dependencies]
anyhow = "1"
chrono = { version = "0.4", default-features = false, features = ["clock"] }
clap = { version = "4", features = ["derive"] }
colored = "2"
dirs = "5"
notifica = "*"
reqwest = { version = "0.12", default-features = false, features = ["blocking", "rustls-tls"] }
rusqlite = { version = "*", features = ["bundled"] }
terminal_size = "*"
tokio = { version = "1", features = ["rt", "time", "sync", "signal", "macros"] }
