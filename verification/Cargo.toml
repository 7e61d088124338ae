[package]
name = "ferritest"
version = "0.1.0"
edition = "2021"
publish = false

[dependencies]
rand = "0.8"
crossbeam = "0.8"
num_cpus = "1"
humantime = "2"
wgpu = "*"
pollster = "*"
clap = { version = "4", features = ["derive"] }
indicatif = "*"
