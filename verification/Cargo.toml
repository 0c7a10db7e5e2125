[package]
name = "waikato_meetup"
version = "0.1.0"
edition = "2021"
publish = false

[dependencies]
leptos = { version = "0.8", features = ["csr"] }
wasm-bindgen = "0.2"
web-sys = { version = "0.3", features = ["CanvasRenderingContext2d", "CanvasGradient", "HtmlCanvasElement", "PointerEvent", "MouseEvent", "Window", "Document", "Element", "MediaQueryList"] }
console_error_panic_hook = "0.1"
