[package]
name = "level_meter"
version = "0.1.0"
edition = "2021"
publish = false

[dependencies]
cpal = "=0.18.2"
itertools = "=0.14.0"
ringbuf = "=0.4.8"

[dev-dependencies]
dasp_sample = "=0.11.0"
