[package]
name = "toy_engine"
version = "0.1.0"
edition = "2021"
publish = false

[dependencies]
ash = "0.37"
ash-window = "0.11"
cgmath = "0.18"
env_logger = "0.10"
imgui = "0.9"
imgui-winit-support = "0.9"
log = "0.4"
winit = "0.27"
