[package]
name = "rust_renderer"
version = "0.1.0"
edition = "2021"
publish = false

[dependencies]
cgmath = "*"
js-sys = "*"
wasm-bindgen = "*"
web-sys = { version = "*", features = ["console", "Window", "Document", "Element", "EventTarget", "HtmlElement", "HtmlCanvasElement", "Node", "Event", "KeyboardEvent", "MouseEvent", "WebGl2RenderingContext", "WebGlBuffer", "WebGlProgram", "WebGlShader", "WebGlUniformLocation", "WebGlVertexArrayObject"] }

[dev-dependencies]
wavefront_rs = "*"
