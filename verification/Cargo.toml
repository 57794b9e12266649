[package]
name = "worktime"
version = "0.1.0"
edition = "2021"
publish = false

[dependencies]
chrono = "=0.4.45"
dptree = "=0.5.1"
log = "=0.4.34"
pretty_env_logger = "=0.5.0"
takecell = "<0.1.2"
teloxide = { version = "=0.17.0", features = ["macros"] }
tokio = { version = "=1.54.1", features = ["rt-multi-thread", "macros"] }
