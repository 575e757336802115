[package]
name = "fluss"
version = "0.1.0"
edition = "2021"
publish = false

[dependencies]
arrow = { version = "*", default-features = false, features = ["ipc"] }
chrono = { version = "0.4", default-features = false }
ordered-float = "*"
parking_lot = "0.12"
parse-display = "*"
rust_decimal = "1"
serde = { version = "1", features = ["derive"] }
thiserror = "*"
tokio = { version = "1", default-features = false, features = ["sync", "rt", "time"] }
tracing = "0.1"
