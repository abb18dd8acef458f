[package]
name = "syncy"
version = "0.1.0"
edition = "2021"
publish = false

[dependencies]
clap = { version = "=3.2.25", features = ["derive"] }
serde = { version = "=1.0.229", features = ["derive"] }
thiserror = "=1.0.69"
colored = "=2.2.0"
env_logger = "=0.9.3"
log = "=0.4.35"
once_cell = "=1.21.4"
async-trait = "=0.1.92"
parity-scale-codec = { version = "=3.7.5", features = ["derive"] }
scale-info = { version = "=2.11.6", features = ["derive"] }
tokio = { version = "=1.54.1", features = ["full"] }
libp2p = { version = "=0.54.1", default-features = false, features = ["kad", "mdns", "gossipsub", "identify", "ping", "noise", "tcp", "yamux", "pnet", "floodsub", "tokio", "macros"] }
bs58 = "=0.5.1"
