[package]
name = "rust_gl"
version = "0.1.0"
edition = "2021"
publish = false

[dependencies]
png = "*"
nalgebra = "*"
wasm-bindgen = "*"
web-sys = { version = "*", features = ["Window", "Document", "Element", "HtmlCanvasElement", "WebGlRenderingContext", "WebGlProgram", "WebGlShader", "WebGlBuffer", "WebGlTexture", "WebGlFramebuffer", "WebGlRenderbuffer", "WebGlUniformLocation", "Performance", "console"] }
