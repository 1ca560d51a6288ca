[package]
name = "delay_vst"
version = "0.1.0"
edition = "2021"
publish = false

[dependencies]
egui = "=0.34.3"
nih_plug_core = "=0.1.2"
nih_plug_egui = "=0.1.2"
