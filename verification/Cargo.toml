[package]
name = "uzkv"
version = "0.1.0"
edition = "2021"
publish = false

[dependencies]
ark-bn254 = "0.4"
ark-ec = "0.4"
ark-ff = "0.4"
ark-serialize = "0.4"
ark-groth16 = "0.4"
sha3 = "0.10"
blake3 = { version = "1", default-features = false, features = ["pure"] }
winter-math = "*"
winter-air = "*"
stylus-sdk = "*"
alloy-primitives = "*"
alloy-sol-types = "*"
serde_json = "1"

[dev-dependencies]
ark-std = "0.4"
