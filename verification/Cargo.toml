[package]
name = "counter_collector"
version = "0.1.0"
edition = "2021"
publish = false

[dependencies]
crossbeam-channel = "*"
rand = "*"
rocket = "0.5"
