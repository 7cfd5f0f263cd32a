[package]
name = "discovery"
version = "0.1.0"
edition = "2021"
publish = false

[dependencies]
heapless = "0.8"
microbit-v2 = "*"
cortex-m = { version = "0.7", features = ["critical-section-single-core"] }
cortex-m-rt = "0.7"
embedded-hal = "1"
lsm303agr = "1"
panic-rtt-target = "*"
rtt-target = "*"
critical-section-lock-mut = "*"
