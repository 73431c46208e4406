[package]
name = "zwo_workout"
version = "0.1.0"
edition = "2021"
publish = false

[dependencies]
async-std = "1"
btleplug = "0.11"
eframe = { version = "0.22", default-features = false, features = ["default_fonts", "glow"] }
egui_file = "0.9"
proc-bitfield = "0.2"
tokio = { version = "1", features = ["rt-multi-thread", "time"] }
uuid = "1"
