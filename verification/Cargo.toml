[package]
name = "network_direct"
version = "0.1.0"
edition = "2021"
publish = false

[dependencies]
fnv = "=1.0.7"
prost = "=0.13.5"
cita_cloud_proto = "=6.7.4"
tonic = "=0.12.3"
tokio = { version = "=1.54.1", features = ["full"] }
tokio-stream = { version = "=0.1.19", features = ["net"] }
futures = "=0.3.34"
log = "=0.4.35"
anyhow = "=1.0.104"
clap = { version = "=4.6.7", features = ["derive"] }
git-version = "=0.3.9"
log4rs = "=1.4.0"
libp2p = { version = "=0.35.1", default-features = false }
serde = { version = "1", features = ["derive"] }
toml = "0.8"
