[package]
name = "thematic"
version = "0.1.0"
edition = "2021"
publish = false

[dependencies]
regex = "1"
slug = "0.1"
serde = { version = "1", features = ["derive"] }
serde_json = "1"
serde_with = "3"
glob = "0.3"
home = "0.5"
log = "0.4"
thiserror = "2"
toml = "0.8"
walkdir = "2"
fast-glob = "*"
mkdirp = "*"
clap = { version = "4", features = ["derive"] }
owo-colors = "4"
strsim = "0.11"
lovely_env_logger = "*"
