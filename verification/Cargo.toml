[package]
name = "int-return-types"
version = "0.1.0"
edition = "2021"
publish = false

[dependencies]
alloy-primitives = "=0.8.14"
mini-alloc = "=0.4.2"
ruint = { version = "=1.12.4", default-features = false }
stylus-sdk = { version = "=0.7.0", default-features = false, features = ["hostio-caching"] }
