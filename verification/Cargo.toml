[package]
name = "pvf_harness"
version = "0.1.0"
edition = "2021"
publish = false

[dependencies]
dlopen = "=0.1.8"
dlopen_derive = "=0.1.4"
parity-scale-codec = "=3.7.5"
polkadot-parachain = "=1.0.0"
