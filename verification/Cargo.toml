[package]
name = "clipsaver"
version = "0.1.0"
edition = "2021"
publish = false

[dependencies]
anyhow = "*"
arboard = "*"
chrono = "*"
clap = { version = "*", features = ["derive"] }
clap-verbosity-flag = "*"
config = "*"
dirs = "*"
image = { version = "*", default-features = false, features = ["png"] }
log = "*"
serde = { version = "*", features = ["derive"] }
shellexpand = "*"
simple_logger = "*"
