[package]
name = "motsu_router"
version = "0.1.0"
edition = "2021"
publish = false

[dependencies]
alloy-primitives = "=1.7.3"
dashmap = "=6.2.1"
stylus-sdk = "=0.10.10"
