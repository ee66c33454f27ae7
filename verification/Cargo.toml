[package]
name = "evkvm"
version = "0.1.0"
edition = "2021"
publish = false

[dependencies]
ring = "=0.16.20"
hex = "=0.4.3"
bincode = "=1.3.3"
serde = { version = "=1.0.229", features = ["derive"] }
tokio = { version = "=1.54.1", features = ["full"] }
tokio-rustls = { version = "=0.23.4", features = ["dangerous_configuration"] }
rustls-pemfile = "=1.0.4"
rcgen = "=0.9.3"
anyhow = "=1.0.104"
log = "=0.4.34"
env_logger = "=0.9.3"
clap = { version = "=3.2.25", features = ["derive"] }
figment = { version = "=0.10.19", features = ["toml"] }
futures = "=0.3.34"
inotify = "=0.10.2"
libc = "=0.2.191"
