[package]
name = "taichi_agent"
version = "0.1.0"
edition = "2021"
publish = false

[dependencies]
parity-crypto = "=0.9.0"
tokio = { version = "=1.53.2", features = ["rt-multi-thread", "time", "macros"] }
reqwest = { version = "=0.13.5", default-features = false, features = ["json"] }
serde = "*"
serde_derive = "*"
structopt = "=0.3.26"
log = "*"
fern = { version = "=0.7.1", features = ["colored"] }
chrono = "*"
num_cpus = "*"
tonic = "=0.14.6"
tonic-prost = "*"
prost = "=0.14.4"
http = "*"
