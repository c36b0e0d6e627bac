[package]
name = "chat"
version = "0.1.0"
edition = "2021"
publish = false

[dependencies]
actix = "=0.13.5"
actix-web = { version = "=4.18.1", default-features = false, features = ["macros", "ws"] }
actix-web-actors = "=4.3.1"
actix-files = "=0.6.10"
serde = { version = "=1.0.229", features = ["derive"] }
serde_json = "=1.0.154"
wasm-bindgen = "=0.2.130"
js-sys = "=0.3.107"
console_error_panic_hook = "=0.1.7"
web-sys = { version = "=0.3.107", features = ["Window", "Document", "Element", "HtmlElement", "HtmlInputElement", "HtmlLabelElement", "Node", "Text", "WebSocket", "MessageEvent", "Location", "EventTarget", "console"] }
