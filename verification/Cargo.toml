[package]
name = "vrc_agent"
version = "0.1.0"
edition = "2021"
publish = false

[dependencies]
restson = "*"
hyper = "*"
serde = "*"
serde_derive = "*"
serde_json = "*"
openssl-probe = "*"
