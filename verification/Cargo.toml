[package]
name = "vapor_cli"
version = "0.1.0"
edition = "2021"
publish = false

[dependencies]
anyhow = "1"
atty = "0.2"
chrono = "0.4"
clap = { version = "4", features = ["derive"] }
csv = "1"
ctrlc = "3"
dirs = "5"
prettytable-rs = "0.10"
rand = "0.8"
rusqlite = "0.32"
rustyline = "14"
serde = { version = "1", features = ["derive"] }
serde_json = "1"
tempfile = "3"
uuid = { version = "1", features = ["v4"] }
