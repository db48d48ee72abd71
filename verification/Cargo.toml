[package]
name = "guest_abi"
version = "0.1.0"
edition = "2021"
publish = false

[dependencies]
thiserror = "1"
