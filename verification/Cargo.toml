[package]
name = "mdblog"
version = "0.1.0"
edition = "2021"
publish = false

[dependencies]
pulldown-cmark = "*"
axum = "*"
tokio = { version = "*", features = ["macros", "rt-multi-thread", "net", "fs"] }
tracing = "*"
tracing-subscriber = { version = "*", features = ["env-filter"] }
