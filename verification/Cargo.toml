[package]
name = "rotmg"
version = "0.1.0"
edition = "2021"
publish = false

[dependencies]
bimap = "*"
hex = "*"
num-traits = "*"
swf-parser = "*"
anyhow = "*"
log = "*"
env_logger = "*"
thiserror = "*"
serde = { version = "*", features = ["derive"] }
serde_json = "*"
serde-xml-rs = "*"
structopt = "*"
dirs = "*"
futures = "*"
tokio = { version = "*", features = ["full"] }
reqwest = { version = "*", default-features = false }
