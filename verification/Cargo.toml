[package]
name = "core_registers"
version = "0.1.0"
edition = "2021"
publish = false

[dependencies]
log = "0.4"
probe-rs-target = "0.13"
