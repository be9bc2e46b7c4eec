[package]
name = "chart_canvas"
version = "0.1.0"
edition = "2021"
publish = false

[dependencies]
wasm-bindgen = "0.2"
js-sys = "0.3"
wasm-bindgen-futures = "0.4"
web-sys = { version = "0.3", features = ["WebGl2RenderingContext", "WebGlProgram", "WebGlBuffer", "WebGlVertexArrayObject", "WebGlTexture", "WebGlShader", "WebGlUniformLocation", "Window", "Response"] }
uuid = { version = "1", features = ["v4"] }
lyon = "0.17"
footile = "0.3"
console_error_panic_hook = "0.1"
