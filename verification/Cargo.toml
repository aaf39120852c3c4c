[package]
name = "vhost_vdpa"
version = "0.1.0"
edition = "2021"
publish = false

[dependencies]
libc = "*"
vm-memory = "*"
vmm-sys-util = "*"
