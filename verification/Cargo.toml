[package]
name = "tm_g29"
version = "0.1.0"
edition = "2021"
publish = false

[dependencies]
cfg-if = "*"
clap = { version = "*", features = ["derive"] }
hidapi = "*"
serde = { version = "*", features = ["derive"] }
thiserror = "*"
tokio = { version = "*", features = ["rt-multi-thread", "macros", "time", "signal", "sync", "io-util", "io-std"] }
toml = "*"
tracing = "*"
tracing-subscriber = "*"
