[package]
name = "clipforge"
version = "0.1.0"
edition = "2021"
publish = false

[dependencies]
serde = { version = "1", features = ["derive"] }
serde_json = "1"
log = "0.4"
libc = "0.2"
reqwest = { version = "0.12", features = ["json", "multipart"] }
cocoa = "0.25"
objc = "0.2"
