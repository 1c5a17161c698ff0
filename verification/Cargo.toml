[package]
name = "graph"
version = "0.1.0"
edition = "2021"
publish = false

[dependencies]
uuid = { version = "1", features = ["v4"] }
gedcom = "*"
iced = { version = "0.13", default-features = false, features = ["canvas", "tiny-skia", "tokio"] }
rfd = "*"
tracing-subscriber = "0.3"
futures = "0.3"
log = "0.4"
once_cell = "1"
cocoa = "*"
objc = "0.2"
dispatch = "0.2"
