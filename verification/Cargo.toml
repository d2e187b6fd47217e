[package]
name = "dab_s3_logs"
version = "0.1.0"
edition = "2021"
publish = false

[dependencies]
anyhow = "*"
aws-config = "*"
aws-sdk-s3 = "*"
bytesize = "*"
clap = { version = "*", features = ["derive"] }
confy = "*"
dateparser = "*"
dialoguer = { version = "*", features = ["fuzzy-select"] }
dirs = "*"
env_logger = "*"
file-format = "*"
flate2 = "*"
fs_extra = "*"
human_bytes = "*"
indicatif = "*"
is-terminal = "*"
log = "*"
rust-ini = "*"
serde = { version = "*", features = ["derive"] }
serde_json = "*"
thiserror = "*"
tokio = { version = "*", features = ["macros", "rt-multi-thread", "sync"] }
toml = "*"
walkdir = "*"
