[package]
name = "sqlite_glance"
version = "0.1.0"
edition = "2021"
publish = false

[dependencies]
anyhow = "1"
clap = "4"
comfy-table = "7"
crossterm = "*"
rusqlite = { version = "*", features = ["bundled"] }
sqlparser = "*"
yansi = { version = "1", features = ["detect-tty", "detect-env"] }
