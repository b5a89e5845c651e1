[package]
name = "call_codegen"
version = "0.1.0"
edition = "2021"
publish = false

[dependencies]
frame-metadata = { version = "=15.1.0", features = ["v14"] }
heck = "=0.4.1"
proc-macro-error = "=1.0.4"
proc-macro2 = "=1.0.107"
quote = "=1.0.47"
scale-info = "=2.11.6"
substrate-bip39 = "=0.4.4"
subxt-metadata = "=0.22.0"
syn = "=1.0.109"
