[package]
name = "gamebub_gba"
version = "0.1.0"
edition = "2021"
publish = false

[dependencies]
log = "=0.4.35"
thiserror = "=2.0.21"
time = "=0.3.55"
