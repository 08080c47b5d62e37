[package]
name = "event_bus"
version = "0.1.0"
edition = "2021"
publish = false

[dependencies]
pyo3 = "0.20"
tokio = { version = "1", features = ["rt-multi-thread", "sync"] }
