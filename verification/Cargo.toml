[package]
name = "poly_commit"
version = "0.1.0"
edition = "2021"
publish = false

[dependencies]
ark-ff = { version = "0.3.0", features = ["std"] }
ark-poly = { version = "0.3.0", features = ["std"] }
rand_core = "0.6"

[dev-dependencies]
ark-bls12-381 = "0.3.0"
