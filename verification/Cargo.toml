[package]
name = "blackhole_sim"
version = "0.1.0"
edition = "2021"
publish = false

[dependencies]
bytemuck = { version = "1", features = ["derive"] }
cgmath = "0.18"
rand = "0.8"
wgpu = "24"
wasm-bindgen = "0.2"
wasm-bindgen-futures = "0.4"
web-sys = { version = "0.3", features = ["console", "CssStyleDeclaration", "Document", "Element", "Event", "EventTarget", "HtmlCanvasElement", "HtmlElement", "KeyboardEvent", "MouseEvent", "Touch", "TouchEvent", "TouchList", "WheelEvent", "Window"] }
console_error_panic_hook = "0.1"
console_log = "1"
log = "0.4"
