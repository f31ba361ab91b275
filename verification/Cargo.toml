[package]
name = "eth_header"
version = "0.1.0"
edition = "2021"
publish = false

[dependencies]
ethereum-types = { version = "=0.16.0", features = ["codec"] }
lru = "=0.19.0"
parking_lot = "=0.13.0"
parity-scale-codec = { version = "=3.7.5", features = ["derive"] }
rlp = { version = "=0.6.1", features = ["derive"] }
scale-info = { version = "=2.11.6", features = ["derive"] }
serde = { version = "=1.0.229", features = ["derive"] }
sha3 = "=0.12.0"
