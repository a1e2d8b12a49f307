[package]
name = "ring_vrf"
version = "0.1.0"
edition = "2021"
publish = false

[dependencies]
ark-vrf = { version = "=0.1.1", features = ["bandersnatch", "ring"] }
lru = "=0.19.0"
libc = "*"
thiserror = "*"
env_logger = "*"
polkavm = "0.22"
