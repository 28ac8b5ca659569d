[package]
name = "tasks"
version = "0.2.0"
edition = "2021"
publish = false

[dependencies]
slotmap = "1"
chrono = { version = "0.4", features = ["serde"] }
serde = { version = "1", features = ["derive"] }
directories = "*"
open = "*"
cli-clipboard = "0.4"
tracing = "0.1"
tracing-subscriber = { version = "0.3", features = ["env-filter"] }
