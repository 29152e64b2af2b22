[package]
name = "crate_upd_bot"
version = "0.1.0"
edition = "2021"
publish = false

[dependencies]
serde_json = "=1.0.151"
serde = { version = "=1.0.229", features = ["derive"] }
toml = "=1.1.6"
log = "=0.4.34"
simple_logger = "=5.2.0"
git2 = { version = "=0.21.0", default-features = false }
tokio = { version = "=1.53.2", features = ["rt-multi-thread", "macros", "time", "sync", "fs", "io-util"] }
tokio-postgres = "=0.7.18"
teloxide = { version = "=0.17.0", default-features = false, features = ["macros", "ctrlc_handler"] }
takecell = "=0.1.1"
