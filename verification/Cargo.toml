[package]
name = "kui"
version = "0.1.0"
edition = "2021"
publish = false

[dependencies]
vello = "0.3"
winit = "0.30"
slotmap = "1"
smallvec = "1"
hashbrown = "0.15"
rustc-hash = "2"
parking_lot = "0.12"
