[package]
name = "cedar-policy-validator"
version = "0.1.0"
edition = "2021"
publish = false

[dependencies]
cedar-policy-core = "3.2"
itertools = "0.10"
miette = "7"
smol_str = "0.2"
thiserror = "1.0"
