[package]
name = "faff-plugin-matrix-rust"
version = "0.1.0"
edition = "2021"
publish = false

[dependencies]
anyhow = "1"
chrono = { version = "=0.4.45", default-features = false, features = ["std"] }
chrono-tz = { version = "=0.10.4", default-features = false, features = ["std"] }
clap = { version = "4", default-features = false, features = ["std", "derive", "help", "usage", "error-context"] }
dirs = "6"
matrix-sdk = { version = "=0.16.1", default-features = false, features = ["sqlite", "bundled-sqlite", "rustls-tls"] }
serde = { version = "1", features = ["derive"] }
tokio = { version = "1", features = ["macros", "rt-multi-thread", "signal", "sync", "time"] }
toml = { version = "0.9", default-features = false, features = ["std", "parse", "serde"] }
tracing = "0.1"
tracing-subscriber = { version = "0.3", default-features = false, features = ["ansi", "env-filter", "fmt"] }
