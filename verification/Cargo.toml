[package]
name = "atlas_schema"
version = "0.1.0"
edition = "2021"
publish = false

[dependencies]
blake3 = { version = "1", features = ["pure"] }
uuid = { version = "1", features = ["v7"] }
prost = "0.13"
thiserror = "2"
