[package]
name = "route_optimizer"
version = "0.1.0"
edition = "2021"
publish = false

[dependencies]
chrono = { version = "0.4", default-features = false, features = ["clock", "std", "serde"] }
serde = { version = "1", features = ["derive"] }
serde_json = "1"
log = "0.4"
wasm-bindgen = "0.2"
wasm-bindgen-futures = "0.4"
js-sys = "0.3"
web-sys = { version = "0.3", features = ["Window", "Storage", "Event", "EventTarget", "Navigator", "MediaQueryList", "console"] }
gloo-net = { version = "0.6", default-features = false, features = ["http", "json"] }
gloo-timers = "0.3"
reqwest = { version = "0.12", default-features = false, features = ["json"] }
