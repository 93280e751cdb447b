[package]
name = "manta_signer"
version = "0.1.0"
edition = "2021"
publish = false

[dependencies]
subtle = "2"
secrecy = "0.8"
dirs-next = "2"
