[package]
name = "safe_core"
version = "0.1.0"
edition = "2021"
publish = false

[dependencies]
safe-nd = "=0.11.7"
threshold_crypto = "=0.4.0"
crdts = "=4.3.0"
futures = "=0.3.34"
cbor = "=0.3.16"
log = "=0.4.35"
