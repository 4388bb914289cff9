[package]
name = "wasmedgeup"
version = "0.1.0"
edition = "2021"
publish = false

[dependencies]
anyhow = "*"
clap = { version = "*", features = ["derive"] }
dirs = "*"
env_logger = "*"
flate2 = "*"
futures-util = "*"
hex = "*"
indicatif = "*"
log = "*"
reqwest = { version = "*", default-features = false, features = ["json", "stream"] }
serde = { version = "*", features = ["derive"] }
sha2 = "*"
tar = "*"
tempfile = "*"
thiserror = "*"
tokio = { version = "*", features = ["rt-multi-thread", "macros", "fs", "io-util"] }
