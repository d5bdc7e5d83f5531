[package]
name = "shoporusni"
version = "0.1.0"
edition = "2021"
publish = false

[dependencies]
anyhow = "*"
atty = "*"
clap = { version = "*", features = ["derive"] }
clap-verbosity-flag = "*"
colored = "*"
dirs = "*"
humantime = "*"
log = "*"
reqwest = { version = "*", default-features = false, features = ["blocking"] }
serde = { version = "*", features = ["derive"] }
serde_json = "*"
simplelog = "*"
url = "*"
