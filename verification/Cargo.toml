[package]
name = "websocket_stream"
version = "0.1.0"
edition = "2021"
publish = false

[dependencies]
futures-channel = "0.3"
futures-util = "0.3"
js-sys = "0.3"
thiserror = "1"
web-sys = { version = "0.3", features = ["BinaryType", "Event", "MessageEvent", "WebSocket"] }
