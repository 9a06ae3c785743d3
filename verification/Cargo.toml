[package]
name = "reqresp"
version = "0.1.0"
edition = "2021"
publish = false

[dependencies]
async-std = "1"
async-trait = "0.1"
futures = "0.3"
libp2p-core = "0.28"
libp2p-noise = "0.30"
libp2p-request-response = "0.11"
libp2p-swarm = "0.29"
libp2p-tcp = "0.28"
libp2p-yamux = "0.32"
rust-base58 = "0.0.4"
