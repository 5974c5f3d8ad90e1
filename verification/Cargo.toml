[package]
name = "radikal_grants"
version = "0.1.0"
edition = "2021"
publish = false

[dependencies]
blake2 = "=0.9.2"
rand = "=0.7.3"
validator = "=0.10.1"
serde = { version = "1", features = ["derive"] }
parity-scale-codec = { version = "=1.3.7", features = ["derive"] }
uuid = { version = "=0.8.2", features = ["v4"] }
sled = "0.34"
lettre = "=0.9.6"
lettre_email = "=0.9.4"
parking_lot = "=0.10.2"
rocket = { version = "0.5", features = ["secrets"] }
rocket_dyn_templates = { version = "0.2", features = ["tera"] }
