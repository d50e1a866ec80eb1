[package]
name = "dodge_creeps"
version = "0.1.0"
edition = "2021"
publish = false

[dependencies]
gdnative = "0.10"
rand = "0.8"
