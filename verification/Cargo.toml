[package]
name = "reflection"
version = "0.1.0"
edition = "2021"
publish = false

[dependencies]
rkyv = "=0.8.18"
async-channel = "=2.5.0"
mdns-sd = "=0.21.6"
if-addrs = "=0.15.0"
