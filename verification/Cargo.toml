[package]
name = "orbit"
version = "0.1.0"
edition = "2021"
publish = false

[dependencies]
serde = { version = "1", features = ["derive"] }
serde_json = "1"
axum = "*"
tokio = { version = "1", features = ["macros", "rt-multi-thread", "net"] }
tower-http = { version = "*", features = ["cors"] }
reqwest = { version = "*", default-features = false, features = ["json", "rustls-tls"] }
walkdir = "2"
yew = { version = "*", features = ["csr"] }
web-sys = { version = "*", features = ["Event", "MouseEvent", "InputEvent", "HtmlCanvasElement", "CanvasRenderingContext2d", "ImageData", "HtmlTextAreaElement", "HtmlInputElement", "Window", "Document", "Element", "EventTarget"] }
wasm-bindgen = "*"
wasm-bindgen-futures = "*"
js-sys = "*"
gloo-timers = "*"
gloo-net = "*"
