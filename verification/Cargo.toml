[package]
name = "sbf_engine"
version = "0.1.0"
edition = "2021"
publish = false

[dependencies]
image = { version = "0.23", default-features = false, features = ["jpeg", "png"] }
lockfree = "0.5"
serde = { version = "1", features = ["derive"] }
serde_derive = "1"
serde-xml-rs = "0.4"
toml = "0.5"
cgmath = "0.18"
ash = "0.32"
ash-window = "0.6"
raw-window-handle = "0.3"
winit = "0.24"
vk-mem = "0.2"
