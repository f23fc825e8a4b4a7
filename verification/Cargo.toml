[package]
name = "penumbra"
version = "0.1.0"
edition = "2021"
publish = false

[dependencies]
num-bigint = "*"
nusb = "*"
tokio = { version = "*", features = ["full"] }
async-trait = "*"
anyhow = "*"
log = "*"
serde = { version = "*", features = ["derive"] }
toml = "*"
dirs = "*"
clap = { version = "*", features = ["derive"] }
