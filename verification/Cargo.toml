[package]
name = "garmin_run_tracker"
version = "0.1.0"
edition = "2021"
publish = false

[dependencies]
chrono = "0.4"
dirs = "*"
fitparser = "*"
form_urlencoded = "1"
hex = "0.4"
log = "0.4"
ratatui = "*"
reqwest = { version = "0.12", features = ["blocking", "json"] }
rusqlite = { version = "*", features = ["chrono", "array"] }
serde = { version = "1", features = ["derive"] }
serde_yaml = "0.9"
sha2 = "0.10"
simplelog = "*"
structopt = "0.3"
