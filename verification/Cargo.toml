[package]
name = "wol_bot"
version = "0.1.0"
edition = "2021"
publish = false

[dependencies]
anyhow = "1"
dptree = "=0.3.0"
log = "0.4"
pretty_env_logger = "=0.5.0"
ssh2 = "=0.9.6"
takecell = "=0.1.1"
teloxide = { version = "=0.12.2", features = ["macros"] }
tokio = { version = "1", features = ["rt-multi-thread", "macros", "time", "net"] }

[dev-dependencies]
regex = "1"
