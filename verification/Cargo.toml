[package]
name = "tiered_sync"
version = "0.1.0"
edition = "2021"
publish = false

[dependencies]
cfg-if = "1.0"
libc = "0.2"
