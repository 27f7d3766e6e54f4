[package]
name = "vldp"
version = "0.1.0"
edition = "2021"
publish = false

[dependencies]
astro-float = "0.9"
blake2 = "0.10"
ark-crypto-primitives = { version = "0.4", features = ["crh", "commitment", "prf", "merkle_tree", "r1cs"] }
ark-ec = "0.4"
ark-ff = "0.4"
ark-groth16 = "0.4"
ark-r1cs-std = "0.4"
ark-relations = "0.4"
ark-serialize = "0.4"
ark-snark = "0.4"
ark-std = "0.4"
ark-bls12-381 = "0.4"
ark-ed-on-bls12-381 = { version = "0.4", features = ["r1cs"] }
num-bigint = "0.4"
rand = "0.8"
rand_chacha = "0.3"
derivative = "2"
