[package]
name = "tglog"
version = "0.1.0"
edition = "2021"
publish = false

[dependencies]
grammers-client = "=0.8.1"
grammers-mtsender = "=0.8.1"
grammers-session = "=0.8.0"
grammers-tl-types = "=0.8.0"
tokio = { version = "=1.53.2", features = ["rt-multi-thread", "macros"] }
once_cell = "=1.21.4"
chrono = "=0.4.45"
