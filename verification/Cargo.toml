[package]
name = "browser_core"
version = "0.1.0"
edition = "2021"
publish = false

[dependencies]
chrono = { version = "=0.4.45", default-features = false, features = ["clock", "std"] }
cssparser = "=0.38.0"
glean = "*"
selectors = "=0.41.0"
serde = { version = "=1.0.229", features = ["derive"] }
stylo_dom = "*"
thin-vec = "=0.2.21"
zeitstempel = "=0.2.2"
