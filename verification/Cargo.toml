[package]
name = "dao_shared"
version = "0.1.0"
edition = "2021"
publish = false

[dependencies]
ckb-std = "*"
