[package]
name = "secalc_core"
version = "0.1.0"
edition = "2021"
publish = false

[dependencies]
linked-hash-map = { version = "=0.5.6", features = ["serde_impl"] }
regex = "=1.13.1"
roxmltree = "=0.21.2"
serde = { version = "=1.0.229", features = ["derive"] }
serde_json = "=1.0.154"
thiserror = "=1.0.69"
walkdir = "=2.5.0"
alphanumeric-sort = "=1.5.8"
anyhow = "=1.0.104"
clap = { version = "=4.6.7", features = ["derive", "env"] }
dotenv = "=0.15.0"
ron = "=0.8.1"
steamlocate = "=1.2.1"
dirs = "=5.0.1"
log = "=0.4.35"
