[package]
name = "trnsys_core"
version = "0.1.0"
edition = "2021"
publish = false

[dependencies]
log = "*"
thiserror = "*"
tracing = "*"
tracing-subscriber = { version = "*", default-features = false, features = ["env-filter", "fmt", "registry", "std", "time", "local-time", "ansi"] }
