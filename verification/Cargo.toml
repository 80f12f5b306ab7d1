[package]
name = "frenscan"
version = "0.1.0"
edition = "2021"
publish = false

[dependencies]
lazy_static = "=1.5.1"
prost = "=0.11.9"
serde = { version = "=1.0.229", features = ["derive"] }
serde_yaml = "0.9"
substreams = "=0.5.22"
substreams-database-change = "=1.3.1"
substreams-ethereum = "=0.9.13"

[dev-dependencies]
ethabi = "=17.2.0"
serde_json = "=1.0.154"
