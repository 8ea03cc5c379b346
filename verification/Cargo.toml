[package]
name = "mercury_protocol"
version = "0.1.0"
edition = "2021"
publish = false

[dependencies]
multibase = "*"
sha2 = "*"

[dev-dependencies]
bincode = "1"
