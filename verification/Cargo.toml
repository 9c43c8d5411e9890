[package]
name = "web_ui_primitives_leptos"
version = "0.2.0"
edition = "2021"
publish = false

[dependencies]
leptos = "0.8"
wasm-bindgen = "0.2"
wasm-bindgen-futures = "0.4"
js-sys = "0.3"
send_wrapper = "0.6"
web-sys = { version = "0.3", features = ["Window", "Document", "Element", "HtmlElement", "Node", "NodeList", "EventTarget", "Event", "KeyboardEvent", "PointerEvent", "FocusEvent", "CssStyleDeclaration", "Performance", "DomRect", "TransitionEvent", "AnimationEvent"] }
