[package]
name = "signalbroker_lin_transceiver_rp"
version = "0.1.0"
edition = "2021"
publish = false

[dependencies]
byteorder = "=1.5.0"
lin-bus = "=0.4.0"
serialport = { version = "=4.10.1", default-features = false }
tokio = { version = "=1.54.1", features = ["rt-multi-thread", "macros", "net", "sync", "time"] }
toml = "=1.1.8"
serde = { version = "=1.0.229", features = ["derive"] }
serde_derive = "=1.0.229"
tracing = "=0.1.44"
