[package]
name = "dhooks"
version = "0.1.0"
edition = "2021"
publish = false

[dependencies]
ethers-core = "=2.0.14"
serde = { version = "=1.0.229", features = ["derive"] }
serde_json = "=1.0.151"
url = "=2.5.8"
ic-stable-structures = "=0.7.2"
ic-cdk = "=0.20.3"
ic-cdk-timers = "=1.0.0"
candid = "=0.10.37"
