[package]
name = "nixpkgs_track"
version = "0.1.0"
edition = "2021"
publish = false

[dependencies]
chrono = { version = "=0.4.45", features = ["serde"] }
clap = { version = "=4.6.7", features = ["derive", "env"] }
dialoguer = "=0.11.0"
env_logger = "=0.11.11"
etcetera = "=0.11.0"
git2 = { version = "=0.21.0", features = ["https"] }
log = "=0.4.34"
miette = { version = "=7.6.0", features = ["fancy"] }
reqwest = { version = "=0.12.28", features = ["json"] }
serde = { version = "=1.0.229", features = ["derive"] }
serde_json = "=1.0.154"
thiserror = "=2.0.21"
tokio = { version = "=1.54.1", features = ["macros", "rt-multi-thread"] }
user_dirs = "=0.2.0"
yansi = { version = "=1.0.1", features = ["hyperlink"] }
