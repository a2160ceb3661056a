[package]
name = "eco_print"
version = "0.1.0"
edition = "2021"
publish = false

[dependencies]
image = { version = "*", default-features = false, features = ["png", "jpeg"] }
btleplug = "*"
tokio = { version = "*", features = ["rt-multi-thread", "sync", "time"] }
uuid = "*"
futures-lite = "*"
rusb = "*"
serde = "*"
thiserror = "*"
log = "*"
once_cell = "*"
jni = "*"
jni-utils = "*"
