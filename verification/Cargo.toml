[package]
name = "contract_forge"
version = "0.1.0"
edition = "2021"
publish = false

[dependencies]
amplify = "*"
rand = "*"
strict_encoding = "*"
strict_types = "*"
