[package]
name = "cleverest"
version = "0.1.0"
edition = "2021"
publish = false

[dependencies]
anyhow = "=1.0.104"
bincode = "=1.3.3"
clap = { version = "=4.6.7", features = ["derive"] }
env_logger = { version = "=0.10.2", default-features = false }
image = { version = "=0.24.9", default-features = false }
log = "=0.4.35"
minifb = { version = "0.25", default-features = false, features = ["x11"] }
quinn = "=0.10.2"
rcgen = "=0.11.3"
rustls = { version = "=0.21.12", features = ["dangerous_configuration"] }
serde = { version = "=1.0.229", features = ["derive"] }
thiserror = "=1.0.69"
tokio = { version = "=1.54.1", features = ["rt-multi-thread", "macros", "sync", "time"] }
uuid = { version = "=1.29.0", features = ["v4"] }
