[package]
name = "cargo-nx"
version = "0.1.0"
edition = "2021"
publish = false

[dependencies]
clap = { version = "4", features = ["derive"] }
flate2 = "1"
thiserror = "1"
tokio = { version = "1", features = ["io-std", "io-util", "macros", "net", "rt", "signal", "time"] }
tracing = "0.1"
tracing-subscriber = { version = "0.3", features = ["env-filter"] }
