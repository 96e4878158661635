[package]
name = "machine"
version = "0.1.0"
edition = "2021"
publish = false

[dependencies]
anyhow = "1"
kvm-ioctls = "*"
libpulse-binding = "2"
libpulse-simple-binding = "2"
log = "0.4"
vmm-sys-util = "*"
