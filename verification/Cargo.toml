[package]
name = "pong"
version = "0.1.0"
edition = "2021"
publish = false

[dependencies]
bytemuck = { version = "1", features = ["derive"] }
cgmath = "0.18"
console_error_panic_hook = "0.1"
console_log = "0.2"
env_logger = "0.8"
instant = "0.1"
pollster = "0.2"
rand = "0.8"
wasm-bindgen-futures = "0.4"
web-sys = { version = "0.3", features = ["Document", "Element", "HtmlElement", "Node", "Window"] }
wgpu = "0.9"
winit = "0.25"
