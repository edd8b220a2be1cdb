[package]
name = "futureterm"
version = "0.1.0"
edition = "2021"
publish = false

[dependencies]
base64 = "=0.22.1"
cobs = "=0.5.1"
dirs = "=7.0.0"
futures = "=0.3.34"
futures-channel = "=0.3.34"
gloo-timers = { version = "0.3", features = ["futures"] }
js-sys = "0.3"
futures-util = "=0.3.34"
mavlink = { version = "=0.17.1", features = ["common"] }
nmea = "=0.8.0"
rustls = { version = "=0.23.46", default-features = false, features = ["ring", "std", "tls12"] }
rustls-pemfile = "=2.2.0"
serde = { version = "=1.0.229", features = ["derive"] }
serde_json = "=1.0.154"
serde-wasm-bindgen = "0.6"
thiserror = "=1.0.69"
tokio = { version = "=1.54.1", features = ["rt-multi-thread", "macros", "net", "time", "sync", "io-util", "fs"] }
tokio-rustls = { version = "=0.26.6", default-features = false, features = ["ring", "tls12"] }
tokio-serial = { version = "=5.5.0", default-features = false }
tokio-tungstenite = "=0.30.0"
ureq = "3"
wasm-bindgen = "0.2"
wasm-bindgen-futures = "0.4"
web-sys = { version = "0.3", features = ["BinaryType", "CloseEvent", "ErrorEvent", "Event", "EventTarget", "MessageEvent", "Navigator", "Performance", "ReadableStream", "ReadableStreamDefaultReader", "Storage", "WebSocket", "Window", "WritableStream", "WritableStreamDefaultWriter"] }
