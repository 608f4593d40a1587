[package]
name = "mpywd"
version = "0.1.0"
edition = "2021"
publish = false

[dependencies]
rand = "*"
rand_distr = "*"
serde = { version = "*", features = ["derive"] }
serde_json = "*"
toml = "*"
anyhow = "*"
log = "*"
pretty_env_logger = "*"
percent-encoding = "*"
clap = { version = "*", features = ["derive"] }
tide = "*"
async-std = { version = "*", features = ["attributes"] }
