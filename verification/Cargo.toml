[package]
name = "governor"
version = "0.1.0"
edition = "2021"
publish = false

[dependencies]
dashmap = "6"
futures = "0.3"
futures-timer = "3"
parking_lot = "0.12"
quanta = "0.12"
regex = "1"
tracing = "0.1"
