[package]
name = "axhal"
version = "0.1.0"
edition = "2021"
publish = false

[dependencies]
bit_field = "=0.10.3"
memory_addr = "=0.1.1"
axconfig = "=0.2.2-preview.2"
log = "=0.4.35"
kspin = "*"
lazyinit = "*"
