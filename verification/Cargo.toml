[package]
name = "phantom"
version = "0.1.0"
edition = "2021"
publish = false

[dependencies]
anyhow = "=1.0.104"
chrono = { version = "=0.4.45", features = ["serde"] }
clap = { version = "=4.6.7", features = ["derive"] }
dirs = "=7.0.0"
directories = "=6.0.0"
hex = "=0.4.3"
qrcodegen = "*"
regex = "=1.13.1"
reqwest = { version = "=0.13.5", default-features = false, features = ["json", "form"] }
rusqlite = { version = "=0.41.1", features = ["bundled"] }
semver = "=1.0.28"
serde = { version = "=1.0.229", features = ["derive"] }
serde_json = "=1.0.154"
sha2 = "=0.10.9"
tokio = { version = "=1.54.1", features = ["rt-multi-thread", "macros", "time", "sync"] }
tracing = "=0.1.44"
tracing-subscriber = { version = "=0.3.23", features = ["env-filter"] }
uuid = { version = "=1.29.0", features = ["v4", "serde"] }
