[package]
name = "txproc"
version = "0.1.0"
edition = "2021"
publish = false

[dependencies]
log = "*"
tokio = { version = "*", features = ["rt", "time", "sync", "macros"] }
tokio-stream = "*"
tonic = "*"
