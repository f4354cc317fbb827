[package]
name = "ironfish"
version = "0.1.0"
edition = "2021"
publish = false

[dependencies]
bellman = "0.14"
bls12_381 = "0.8"
ff = "0.13"
group = "0.13"
jubjub = "0.10"
pairing = "0.23"
rand = "0.8"
sapling-crypto = "0.1"
