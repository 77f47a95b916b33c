[package]
name = "nova_egui"
version = "0.1.0"
edition = "2021"
publish = false

[dependencies]
egui = "*"
egui_glow = "*"
nova = "*"
webbrowser = "*"
