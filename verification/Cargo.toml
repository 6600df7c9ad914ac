[package]
name = "common"
version = "0.1.0"
edition = "2021"
publish = false

[dependencies]
base64 = "=0.21.7"
uuid = { version = "=1.29.0", features = ["v4"] }
cookie = { version = "=0.17.0", features = ["percent-encode"] }
serde = { version = "=1.0.229", features = ["derive"] }
serde_json = "=1.0.154"
http = "=0.2.12"
tower = { version = "=0.4.13", features = ["util"] }
futures = "=0.3.34"
pin-project-lite = "=0.2.17"
tokio = { version = "=1.54.1", features = ["full"] }
tokio-util = "=0.7.20"
tonic = "=0.8.3"
prost = "=0.11.9"
etcd-client = "=0.10.4"
casbin = "=2.20.0"
kosei = { version = "=0.2.0", features = ["apollo"] }
clap = { version = "=4.6.7", features = ["derive"] }
tracing = "=0.1.44"
thiserror = "=1.0.69"
parking_lot = "=0.12.5"
async-trait = "=0.1.92"
bytes = "=1.12.1"
names = "=0.14.0"
rand = "=0.8.8"
once_cell = "1"
redis = { version = "*", default-features = false }
