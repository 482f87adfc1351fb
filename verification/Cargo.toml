[package]
name = "fc_core"
version = "0.1.0"
edition = "2021"
publish = false

[dependencies]
derive_more = { version = "=2.1.1", features = ["display"] }
embassy-sync = "=0.8.0"
embedded-hal = "=1.0.0"
motor-mixers = "=0.1.9"
pidsk-controller = "=0.1.13"
postcard = { version = "=1.1.3", features = ["experimental-derive"] }
radio-controllers = { version = "=0.1.9", features = ["serde"] }
sequential-storage = { version = "=8.0.2", features = ["postcard"] }
serde = { version = "=1.0.229", default-features = false, features = ["derive"] }
signal-filters = "=0.1.16"
simple-bitset = "=0.1.9"
vqm = "=0.1.19"
