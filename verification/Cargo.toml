[package]
name = "openlogi"
version = "0.1.0"
edition = "2021"
publish = false

[dependencies]
anyhow = "1"
clap = { version = "4", features = ["derive"] }
hidpp = "*"
thiserror = "*"
tokio = { version = "1", features = ["macros", "rt", "sync", "time"] }
tracing = "0.1"
