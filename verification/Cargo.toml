[package]
name = "classfile"
version = "0.1.0"
edition = "2021"
publish = false

[dependencies]
serde_json = "=1.0.151"
tempfile = "=3.27.0"
tokio = { version = "=1.53.2", features = ["macros", "rt-multi-thread"] }
vendordeps = { version = "=0.3.0", features = ["download"] }
zip = "=8.6.0"
