[package]
name = "manta_xassets"
version = "0.1.0"
edition = "2021"
publish = false

[dependencies]
cumulus-primitives-core = "0.18"
frame-support = "=40.1.0"
frame-system = "=40.2.0"
log = "=0.4.34"
parity-scale-codec = { version = "=3.7.5", features = ["derive"] }
scale-info = { version = "=2.11.6", features = ["derive"] }
sp-core = "=36.1.0"
sp-runtime = "=41.1.0"
sp-std = "=14.0.0"
staging-xcm = "=16.2.0"
staging-xcm-executor = "=19.1.4"
