[package]
name = "networkless"
version = "0.1.0"
edition = "2021"
publish = false

[dependencies]
anyhow = "1"
fs2 = "0.4"
futures = "0.3"
image = { version = "0.25", default-features = false, features = ["png"] }
ksni = "0.3"
log = "0.4"
signal-hook = "0.3"
signal-hook-tokio = { version = "0.3", features = ["futures-v0_3"] }
simplelog = "0.12"
tokio = { version = "1", features = ["rt", "macros", "sync", "time", "process", "fs"] }
zbus = { version = "5", default-features = false, features = ["tokio"] }
