[package]
name = "bender_bouncer"
version = "0.1.0"
edition = "2021"
publish = false

[dependencies]
flate2 = "1"
docopt = "1.1"
colored = "2"
serde = "1"
serde_derive = "1"
