[package]
name = "knet"
version = "0.1.0"
edition = "2021"

[dependencies]
async-std = "1"
futures = "0.3"
log = "0.4"
