[package]
name = "fprint_prompt"
version = "0.1.0"
edition = "2021"
publish = false

[dependencies]
dbus = "=0.9.12"
env_logger = "=0.10.2"
log = "=0.4.34"
smithay-client-toolkit = "0.19"
wayland-client = "=0.31.15"
