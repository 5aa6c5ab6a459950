[package]
name = "inputplumber"
version = "0.1.0"
edition = "2021"
publish = false

[dependencies]
evdev = "0.13"
hidapi = { version = "2", default-features = false, features = ["linux-native-basic-udev"] }
industrial-io = "*"
log = "0.4"
packed_struct = "0.10"
tokio = { version = "1", features = ["process", "fs", "time"] }
udev = "0.9"
