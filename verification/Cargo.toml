[package]
name = "proposed_traits"
version = "0.1.0"
edition = "2021"
publish = false

[dependencies]
p384 = "0.13"
rand_core = "0.6"
sha2 = "0.10"
zerocopy = "0.8"
