[package]
name = "rsocket_transport_iroh"
version = "0.1.0"
edition = "2021"
publish = false

[dependencies]
anyhow = "=1.0.104"
futures = "=0.3.34"
log = "=0.4.34"
rsocket_rust = { version = "=0.7.5", features = ["frame"] }
tokio = { version = "=1.54.1", features = ["sync", "time"] }
pyo3 = "=0.25.1"
pyo3-async-runtimes = { version = "=0.25.0", features = ["tokio-runtime"] }
