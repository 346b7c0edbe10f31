[package]
name = "ipcast"
version = "0.1.0"
edition = "2021"
publish = false

[dependencies]
get_if_addrs = "0.5"
structopt = "0.3"
