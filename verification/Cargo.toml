[package]
name = "lp_pro_gamecontroller"
version = "0.1.0"
edition = "2021"
publish = false

[dependencies]
ctrlc = "3"
log = "0.4"
midir = "*"
rdev = "*"
serde = { version = "1", features = ["derive"] }
simple_logger = "*"
tokio = { version = "1", features = ["rt-multi-thread", "macros", "sync"] }
toml = "*"
