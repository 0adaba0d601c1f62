[package]
name = "webhost"
version = "0.1.0"
edition = "2021"
publish = false

[dependencies]
wasm-bindgen = "0.2"
js-sys = "0.3"
web-sys = { version = "0.3", features = ["console", "CssStyleDeclaration", "Document", "DomRect", "Element", "Event", "EventTarget", "HtmlBodyElement", "HtmlCanvasElement", "HtmlElement", "KeyboardEvent", "Location", "MouseEvent", "Node", "ProgressEvent", "UiEvent", "Window", "XmlHttpRequest", "XmlHttpRequestResponseType"] }
