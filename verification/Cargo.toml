[package]
name = "module_rt"
version = "0.1.0"
edition = "2021"
publish = false

[dependencies]
remote-trait-object = "=0.5.0"
parking_lot = "=0.11.2"
lock_api = "=0.4.14"
threadpool = "=1.8.1"
crossbeam = "=0.8.5"
serde = { version = "=1.0.229", features = ["derive"] }
linkme = "=0.2.10"

[dev-dependencies]
serde_cbor = "=0.11.2"
