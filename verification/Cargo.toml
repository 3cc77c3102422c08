[package]
name = "udp_relay"
version = "0.1.0"
edition = "2021"
publish = false

[dependencies]
flume = "*"
async-net = "*"
futures-lite = "*"
