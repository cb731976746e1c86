[package]
name = "starknet_nft_events"
version = "0.1.0"
edition = "2021"
publish = false

[dependencies]
cainome = "=0.10.1"
serde_json = "=1.0.154"
starknet = "=0.17.0"
substreams = "=0.6.4"
prost = "=0.13.5"
