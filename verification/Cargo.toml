[package]
name = "boards"
version = "0.1.0"
edition = "2021"
publish = false

[dependencies]
ic-cdk = "*"
candid = "*"
serde = "*"
