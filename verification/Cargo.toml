[package]
name = "repo_client"
version = "0.1.0"
edition = "2021"
publish = false

[dependencies]
rust-crypto = "0.2"
sha2 = "0.10"
hyper = "0.10"
rustc-serialize = "0.3"
