[package]
name = "metal_frame"
version = "0.1.0"
edition = "2021"
publish = false

[dependencies]
cocoa = { version = "=0.27.0", default-features = false }
objc = "=0.2.7"
