[package]
name = "gpu_temp"
version = "0.1.0"
edition = "2021"
publish = false

[dependencies]
nvml-wrapper = "=0.9.0"
nvml-wrapper-sys = "=0.7.0"
sysinfo = "=0.29.11"
parking_lot = "=0.12.5"
systemstat = "=0.2.7"
tracing = "=0.1.44"
tracing-subscriber = "=0.3.23"
eframe = { version = "=0.37.0", default-features = false, features = ["glow", "x11", "default_fonts"] }
egui = "=0.37.0"
