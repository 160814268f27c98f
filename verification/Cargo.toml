[package]
name = "oslog"
version = "0.1.0"
edition = "2021"
publish = false

[dependencies]
dashmap = "5"
log = "0.4"
